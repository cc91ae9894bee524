//! The pure side of the render/playback loop: composing the frame's rows
//! and statistics lines, and the pacing decisions that throttle the loop
//! and keep it promptly cancellable. The terminal writes and the clock
//! reads surround these outside the library.

use crate::cell::Cell;
use crate::filter::Filter;
use crate::matrix::Matrix;
use crate::text::{char_repeat, dec_str, u128_to_string};
use crate::timer::NANOS_PER_SEC;
use vstd::arithmetic::power2::pow2;
use vstd::prelude::*;

verus! {

/// On-screen width of a measurement label.
pub const KEY_WIDTH: usize = 20;

/// On-screen width of a measurement value.
pub const VALUE_WIDTH: usize = 40;

/// `s` of visible width `visible`, padded with spaces on the right up to
/// `width`.
pub open spec fn padded_right(s: Seq<char>, visible: int, width: int) -> Seq<char> {
    if width <= visible {
        s
    } else {
        s + char_repeat(' ', (width - visible) as nat)
    }
}

/// `s` of visible width `visible`, padded with spaces on the left up to
/// `width`.
pub open spec fn padded_left(s: Seq<char>, visible: int, width: int) -> Seq<char> {
    if width <= visible {
        s
    } else {
        char_repeat(' ', (width - visible) as nat) + s
    }
}

/// One statistics line: the label in bold, left-justified in the key
/// column, then the value right-justified in the value column.
pub open spec fn spec_measurement(key: Seq<char>, value: Seq<char>) -> Seq<char> {
    padded_right("\x1b[1m"@ + key + "\x1b[22m"@, key.len() as int, KEY_WIDTH as int)
        + padded_left(value, value.len() as int, VALUE_WIDTH as int)
}

/// Renders one measurement: a bold label filling the key column and a
/// plain value right-aligned in the value column. The label and value
/// should avoid full-width or non-printable characters, or the alignment
/// will be off.
pub fn render_measurement(key: &str, value: &str) -> (r: String)
    ensures
        r@ == spec_measurement(key@, value@),
{
    let key_len: usize = key.unicode_len();
    let value_len: usize = value.unicode_len();
    let mut s: String = String::from_str("\x1b[1m");
    s.append(key);
    s.append("\x1b[22m");
    if key_len < KEY_WIDTH {
        let pad: String = crate::text::spaces(KEY_WIDTH - key_len);
        s.append(pad.as_str());
    }
    if value_len < VALUE_WIDTH {
        let pad: String = crate::text::spaces(VALUE_WIDTH - value_len);
        s.append(pad.as_str());
    }
    s.append(value);
    proof {
        assert(s@ =~= spec_measurement(key@, value@));
    }
    s
}

/// The text of a filtered grid row: the filter's text for each of the
/// row's first `c` cells, in order.
pub open spec fn row_text<F: Filter>(f: &F, g: Matrix<Cell>, r: int, c: int) -> Seq<char>
    recommends
        g.wf(),
        0 <= r < g.rows(),
        0 <= c <= g.cols(),
    decreases c,
{
    if c <= 0 {
        Seq::empty()
    } else {
        row_text(f, g, r, c - 1) + f.spec_filter(g.entry(r, c - 1))
    }
}

/// Renders the grid: one text row per grid row, each the concatenation of
/// the filter's text for its cells, in row order.
pub fn render_rows<F: Filter>(grid: &Matrix<Cell>, filter: &F) -> (res: Vec<String>)
    requires
        grid.wf(),
    ensures
        res@.len() == grid.rows(),
        forall|r: int|
            0 <= r < grid.rows() ==> (#[trigger] res@[r])@ == row_text(
                filter,
                *grid,
                r,
                grid.cols(),
            ),
{
    let nrows: usize = grid.nrows();
    let ncols: usize = grid.ncols();
    let mut rows: Vec<String> = Vec::new();
    let mut r: usize = 0;
    while r < nrows
        invariant
            grid.wf(),
            nrows == grid.rows(),
            ncols == grid.cols(),
            r <= nrows,
            rows@.len() == r,
            forall|k: int|
                0 <= k < r ==> (#[trigger] rows@[k])@ == row_text(filter, *grid, k, grid.cols()),
        decreases nrows - r,
    {
        let mut line: String = String::new();
        let mut c: usize = 0;
        while c < ncols
            invariant
                grid.wf(),
                nrows == grid.rows(),
                ncols == grid.cols(),
                r < nrows,
                c <= ncols,
                line@ == row_text(filter, *grid, r as int, c as int),
            decreases ncols - c,
        {
            let cell: Cell = *grid.get(r, c);
            line.append(filter.filter(cell));
            c = c + 1;
        }
        rows.push(line);
        r = r + 1;
    }
    rows
}

/// The closing banner of a finished session, bold and green.
pub fn exit_message() -> (r: String)
    ensures
        r@ == "\x1b[32m"@ + "\x1b[1m"@ + "GAME OVER"@ + "\x1b[22m"@ + "\x1b[39m"@,
{
    let mut s: String = String::from_str("\x1b[32m");
    s.append("\x1b[1m");
    s.append("GAME OVER");
    s.append("\x1b[22m");
    s.append("\x1b[39m");
    proof {
        assert(s@ =~= "\x1b[32m"@ + "\x1b[1m"@ + "GAME OVER"@ + "\x1b[22m"@ + "\x1b[39m"@);
    }
    s
}

/// A hundredths count written as a decimal fraction: the whole part, a
/// point, and the two-digit fractional part.
pub open spec fn spec_hundredths(h: int) -> Seq<char> {
    dec_str(h / 100) + "."@ + seq![
        crate::text::dec_digit((h % 100) / 10),
        crate::text::dec_digit(h % 10),
    ]
}

/// Renders a count of hundredths as a two-decimal fraction.
pub fn fmt_hundredths(h: u128) -> (s: String)
    ensures
        s@ == spec_hundredths(h as int),
{
    let whole: u128 = h / 100;
    let frac: u128 = h % 100;
    let mut s: String = u128_to_string(whole);
    s.append(".");
    s.append(crate::text::digit_str(frac / 10));
    s.append(crate::text::digit_str(frac % 10));
    proof {
        reveal_strlit(".");
        assert(s@ =~= spec_hundredths(h as int));
    }
    s
}

/// The population density of a grid, in hundredths of a percent: zero for
/// the empty grid rather than an undefined ratio.
pub open spec fn spec_density_pct_hundredths(population: int, size: int) -> int {
    if size == 0 {
        0
    } else {
        population * 10000 / size
    }
}

/// The density of alive cells as hundredths of a percent, rounded toward
/// zero; an empty grid has density zero.
pub fn density_pct_hundredths(population: usize, size: usize) -> (r: u128)
    requires
        population <= size,
    ensures
        r == spec_density_pct_hundredths(population as int, size as int),
{
    if size == 0 {
        0
    } else {
        (population as u128) * 10000 / (size as u128)
    }
}

/// Frames per second over the last frame duration, in hundredths: zero
/// when no time has passed.
pub open spec fn spec_fps_hundredths(last_frame_nanos: int) -> int {
    if last_frame_nanos == 0 {
        0
    } else {
        100 * (NANOS_PER_SEC as int) / last_frame_nanos
    }
}

/// The frame rate that the last frame duration amounts to, in hundredths
/// of a frame per second; a zero duration reads as zero.
pub fn fps_hundredths(last_frame_nanos: u64) -> (r: u128)
    ensures
        r == spec_fps_hundredths(last_frame_nanos as int),
{
    if last_frame_nanos == 0 {
        0
    } else {
        100 * NANOS_PER_SEC / (last_frame_nanos as u128)
    }
}

/// The five statistics lines of a frame, in order: generation,
/// population, density, frame rate and runtime, each as a measurement
/// line.
pub fn render_stats(
    generation: usize,
    population: usize,
    size: usize,
    last_frame_nanos: u64,
    runtime_nanos: u128,
) -> (res: Vec<String>)
    requires
        population <= size,
    ensures
        res@.len() == 5,
        res@[0]@ == spec_measurement("Generation"@, dec_str(generation as int)),
        res@[1]@ == spec_measurement("Population"@, dec_str(population as int)),
        res@[2]@ == spec_measurement(
            "Density"@,
            spec_hundredths(spec_density_pct_hundredths(population as int, size as int)) + " %"@,
        ),
        res@[3]@ == spec_measurement(
            "FPS"@,
            spec_hundredths(spec_fps_hundredths(last_frame_nanos as int)),
        ),
        res@[4]@ == spec_measurement(
            "Runtime"@,
            crate::timer::spec_fmt_duration(runtime_nanos as int),
        ),
{
    let generation_s: String = u128_to_string(generation as u128);
    let population_s: String = u128_to_string(population as u128);
    let mut density_s: String = fmt_hundredths(density_pct_hundredths(population, size));
    density_s.append(" %");
    let fps_s: String = fmt_hundredths(fps_hundredths(last_frame_nanos));
    let runtime_s: String = crate::timer::fmt_duration(runtime_nanos);

    let mut res: Vec<String> = Vec::new();
    res.push(render_measurement("Generation", generation_s.as_str()));
    res.push(render_measurement("Population", population_s.as_str()));
    res.push(render_measurement("Density", density_s.as_str()));
    res.push(render_measurement("FPS", fps_s.as_str()));
    res.push(render_measurement("Runtime", runtime_s.as_str()));
    res
}

/// The minimum duration of one frame, in nanoseconds: the nominal frame
/// duration divided by the speed scale `2^exponent`, so a larger exponent
/// shortens the wait and a negative one lengthens it.
pub fn frame_duration_min(nominal_nanos: u64, exponent: i8) -> (r: u128)
    requires
        crate::signal::MIN_EXPONENT <= exponent <= crate::signal::MAX_EXPONENT,
    ensures
        exponent >= 0 ==> r == nominal_nanos as int / pow2(exponent as nat) as int,
        exponent < 0 ==> r == nominal_nanos as int * pow2((-exponent) as nat) as int,
{
    if exponent >= 0 {
        let divisor: u64 = crate::signal::pow2_u64(exponent as u32);
        proof {
            vstd::arithmetic::power2::lemma_pow2_pos(exponent as nat);
        }
        (nominal_nanos as u128) / (divisor as u128)
    } else {
        let factor: u64 = crate::signal::pow2_u64((-exponent) as u32);
        proof {
            vstd::arithmetic::power2::lemma2_to64();
            if (-exponent) < 10 {
                vstd::arithmetic::power2::lemma_pow2_strictly_increases((-exponent) as nat, 10);
            }
            assert(factor <= 1024);
            assert((nominal_nanos as int) * (factor as int) <= u128::MAX) by (nonlinear_arith)
                requires
                    nominal_nanos <= u64::MAX,
                    factor <= 1024,
                    0 <= nominal_nanos,
                    0 <= factor,
            ;
        }
        (nominal_nanos as u128) * (factor as u128)
    }
}

/// Whether the pacing busy-wait spins once more: only while the frame is
/// still short of its minimum duration and no quit has been requested.
pub open spec fn spec_keep_spinning(quit: bool, frame_elapsed: int, frame_min: int) -> bool {
    !quit && frame_elapsed < frame_min
}

/// Whether the pacing busy-wait must spin once more. Quit is re-checked
/// on every spin, so a quit request interrupts the wait immediately
/// rather than after the full remaining duration.
pub fn keep_spinning(quit: bool, frame_elapsed: u128, frame_min: u128) -> (r: bool)
    ensures
        r == spec_keep_spinning(quit, frame_elapsed as int, frame_min as int),
{
    !quit && frame_elapsed < frame_min
}

/// Once quit is set, the pacing wait ends at its very next spin, whatever
/// the elapsed and minimum frame durations are: a quit request never
/// waits out the remaining frame budget.
pub proof fn lemma_quit_interrupts_wait(frame_elapsed: int, frame_min: int)
    ensures
        !spec_keep_spinning(true, frame_elapsed, frame_min),
{
}

} // verus!
