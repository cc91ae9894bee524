//! The dye lens: two colored spaces per cell, one backdrop per state.

use super::{bool_row_text, LensFilter};
use crate::matrix::Matrix;
use crate::rng::random_below;
use crate::term::bg_code;
use vstd::prelude::*;

verus! {

/// The color name at the given position of the palette.
pub open spec fn spec_palette(i: int) -> Seq<char>
    recommends
        0 <= i < 8,
{
    if i == 0 {
        "black"@
    } else if i == 1 {
        "red"@
    } else if i == 2 {
        "green"@
    } else if i == 3 {
        "yellow"@
    } else if i == 4 {
        "blue"@
    } else if i == 5 {
        "magenta"@
    } else if i == 6 {
        "cyan"@
    } else {
        "white"@
    }
}

/// The color name at the given position of the palette.
fn palette(i: usize) -> (r: &'static str)
    requires
        i < 8,
    ensures
        r@ == spec_palette(i as int),
{
    match i {
        0 => "black",
        1 => "red",
        2 => "green",
        3 => "yellow",
        4 => "blue",
        5 => "magenta",
        6 => "cyan",
        _ => "white",
    }
}

/// Every palette entry has a background escape sequence.
proof fn lemma_palette_in_table(i: int)
    requires
        0 <= i < 8,
    ensures
        bg_code(spec_palette(i)) is Some,
{
}

/// The cell symbol of a dye color: two spaces on that background. The
/// background reset comes once per row, not once per cell.
pub open spec fn spec_dye_sym(color: Seq<char>) -> Seq<char>
    recommends
        bg_code(color) is Some,
{
    match bg_code(color) {
        Some(code) => code + "  "@,
        None => Seq::empty(),
    }
}

/// Shows every cell as two spaces on a colored backdrop, one color for
/// alive cells and one for dead cells, and closes each row with a full
/// style reset.
#[derive(Debug)]
pub struct Dye {
    alive: String,
    dead: String,
}

impl Dye {
    /// A dye lens with the given alive and dead colors, which must both
    /// be in the palette.
    pub fn new(color_alive: &str, color_dead: &str) -> (r: Dye)
        requires
            bg_code(color_alive@) is Some,
            bg_code(color_dead@) is Some,
        ensures
            r.spec_alive() == spec_dye_sym(color_alive@),
            r.spec_dead() == spec_dye_sym(color_dead@),
    {
        let alive: String = Self::sym_of(color_alive);
        let dead: String = Self::sym_of(color_dead);
        Dye { alive, dead }
    }

    /// A dye lens with two distinct colors drawn at random from the
    /// palette.
    pub fn random() -> (r: Dye)
        ensures
            exists|i: int, j: int|
                0 <= i < 8 && 0 <= j < 8 && i != j && r.spec_alive() == spec_dye_sym(
                    spec_palette(i),
                ) && r.spec_dead() == spec_dye_sym(spec_palette(j)),
    {
        let i: usize = random_below(8);
        let mut j: usize = random_below(7);
        if j >= i {
            j = j + 1;
        }
        proof {
            lemma_palette_in_table(i as int);
            lemma_palette_in_table(j as int);
        }
        let r: Dye = Dye::new(palette(i), palette(j));
        proof {
            assert(0 <= i < 8 && 0 <= j < 8 && i != j && r.spec_alive() == spec_dye_sym(
                spec_palette(i as int),
            ) && r.spec_dead() == spec_dye_sym(spec_palette(j as int)));
        }
        r
    }

    /// Builds one cell symbol for a palette color.
    fn sym_of(color: &str) -> (s: String)
        requires
            bg_code(color@) is Some,
        ensures
            s@ == spec_dye_sym(color@),
    {
        let mut s: String = Self::code_of(color);
        s.append("  ");
        s
    }

    /// The bare background code of a palette color.
    fn code_of(color: &str) -> (s: String)
        requires
            bg_code(color@) is Some,
        ensures
            match bg_code(color@) {
                Some(code) => s@ == code,
                None => false,
            },
    {
        let lit: &'static str = if crate::text::str_eq(color, "black") {
            "\x1b[40m"
        } else if crate::text::str_eq(color, "red") {
            "\x1b[41m"
        } else if crate::text::str_eq(color, "green") {
            "\x1b[42m"
        } else if crate::text::str_eq(color, "yellow") {
            "\x1b[43m"
        } else if crate::text::str_eq(color, "blue") {
            "\x1b[44m"
        } else if crate::text::str_eq(color, "magenta") {
            "\x1b[45m"
        } else if crate::text::str_eq(color, "cyan") {
            "\x1b[46m"
        } else {
            "\x1b[47m"
        };
        lit.to_owned()
    }

    /// The symbol this lens shows for an alive cell.
    pub closed spec fn spec_alive(&self) -> Seq<char> {
        self.alive@
    }

    /// The symbol this lens shows for a dead cell.
    pub closed spec fn spec_dead(&self) -> Seq<char> {
        self.dead@
    }
}

impl LensFilter for Dye {
    open spec fn spec_observe(&self, gen: Matrix<bool>) -> Seq<Seq<char>> {
        Seq::new(
            gen.rows() as nat,
            |r: int|
                bool_row_text(gen, r, gen.cols(), self.spec_alive(), self.spec_dead())
                    + "\x1b[0m"@,
        )
    }

    fn observe(&self, gen: &Matrix<bool>) -> (r: Vec<String>)
        ensures
            r@.len() == self.spec_observe(*gen).len(),
            forall|i: int|
                0 <= i < r@.len() ==> (#[trigger] r@[i])@ == self.spec_observe(*gen)[i],
    {
        let plain: Vec<String> = super::project_rows(gen, self.alive.as_str(), self.dead.as_str());
        let mut rows: Vec<String> = Vec::new();
        let mut i: usize = 0;
        let nrows: usize = plain.len();
        while i < nrows
            invariant
                nrows == plain@.len(),
                nrows == gen.rows(),
                gen.wf(),
                i <= nrows,
                rows@.len() == i,
                forall|k: int|
                    0 <= k < nrows ==> (#[trigger] plain@[k])@ == bool_row_text(
                        *gen,
                        k,
                        gen.cols(),
                        self.spec_alive(),
                        self.spec_dead(),
                    ),
                forall|k: int|
                    0 <= k < i ==> (#[trigger] rows@[k])@ == self.spec_observe(*gen)[k],
            decreases nrows - i,
        {
            let mut line: String = String::new();
            line.append(plain[i].as_str());
            line.append("\x1b[0m");
            rows.push(line);
            i = i + 1;
        }
        rows
    }
}

} // verus!
