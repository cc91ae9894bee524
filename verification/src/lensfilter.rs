//! Lens filters over a boolean world: each projects a generation into one
//! printable line of text per grid row.

pub use self::blockify::Blockify;
pub use self::digitize::Digitize;
pub use self::dye::Dye;
pub use self::emojify::Emojify;

use crate::matrix::Matrix;
use vstd::prelude::*;

mod blockify;
mod digitize;
mod dye;
mod emojify;

verus! {

/// One generation of the world: a boolean grid, `true` for alive.
pub type Generation = Matrix<bool>;

/// The text of the first `c` cells of row `r`: the alive symbol for every
/// alive cell and the dead symbol for every dead one, in order.
pub open spec fn bool_row_text(
    g: Matrix<bool>,
    r: int,
    c: int,
    alive: Seq<char>,
    dead: Seq<char>,
) -> Seq<char>
    recommends
        g.wf(),
        0 <= r < g.rows(),
        0 <= c <= g.cols(),
    decreases c,
{
    if c <= 0 {
        Seq::empty()
    } else {
        bool_row_text(g, r, c - 1, alive, dead) + (if g.entry(r, c - 1) {
            alive
        } else {
            dead
        })
    }
}

/// The projection of a whole generation: one text per row, each cell
/// rendered with the alive or the dead symbol.
pub open spec fn spec_project(g: Matrix<bool>, alive: Seq<char>, dead: Seq<char>) -> Seq<
    Seq<char>,
> {
    Seq::new(g.rows() as nat, |r: int| bool_row_text(g, r, g.cols(), alive, dead))
}

/// Renders a generation row by row with the given pair of cell symbols.
pub fn project_rows(gen: &Matrix<bool>, sym_alive: &str, sym_dead: &str) -> (res: Vec<String>)
    requires
        gen.wf(),
    ensures
        res@.len() == gen.rows(),
        forall|r: int|
            0 <= r < gen.rows() ==> (#[trigger] res@[r])@ == bool_row_text(
                *gen,
                r,
                gen.cols(),
                sym_alive@,
                sym_dead@,
            ),
{
    let nrows: usize = gen.nrows();
    let ncols: usize = gen.ncols();
    let mut rows: Vec<String> = Vec::new();
    let mut r: usize = 0;
    while r < nrows
        invariant
            gen.wf(),
            nrows == gen.rows(),
            ncols == gen.cols(),
            r <= nrows,
            rows@.len() == r,
            forall|k: int|
                0 <= k < r ==> (#[trigger] rows@[k])@ == bool_row_text(
                    *gen,
                    k,
                    gen.cols(),
                    sym_alive@,
                    sym_dead@,
                ),
        decreases nrows - r,
    {
        let mut line: String = String::new();
        let mut c: usize = 0;
        while c < ncols
            invariant
                gen.wf(),
                nrows == gen.rows(),
                ncols == gen.cols(),
                r < nrows,
                c <= ncols,
                line@ == bool_row_text(*gen, r as int, c as int, sym_alive@, sym_dead@),
            decreases ncols - c,
        {
            if *gen.get(r, c) {
                line.append(sym_alive);
            } else {
                line.append(sym_dead);
            }
            c = c + 1;
        }
        rows.push(line);
        r = r + 1;
    }
    rows
}

/// A lens filter: observes a generation as printable rows.
pub trait LensFilter {
    /// The rows this lens shows for the given generation.
    spec fn spec_observe(&self, gen: Matrix<bool>) -> Seq<Seq<char>>;

    /// Projects the generation into printable rows.
    fn observe(&self, gen: &Matrix<bool>) -> (r: Vec<String>)
        requires
            gen.wf(),
        ensures
            r@.len() == self.spec_observe(*gen).len(),
            forall|i: int|
                0 <= i < r@.len() ==> (#[trigger] r@[i])@ == self.spec_observe(*gen)[i],
    ;
}

} // verus!
