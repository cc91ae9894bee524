//! The digit lens: a bold digit per cell, each row painted green.

use super::{bool_row_text, LensFilter};
use crate::matrix::Matrix;
use vstd::prelude::*;

verus! {

/// The symbol of an alive cell: a bold digit one.
pub open spec fn spec_digit_alive(ascii: bool) -> Seq<char> {
    if ascii {
        "\x1b[1m1\x1b[22m"@
    } else {
        "\x1b[1m１\x1b[22m"@
    }
}

/// The symbol of a dead cell: a dim bold digit zero.
pub open spec fn spec_digit_dead(ascii: bool) -> Seq<char> {
    if ascii {
        "\x1b[1m\x1b[2m0\x1b[22m"@
    } else {
        "\x1b[1m\x1b[2m０\x1b[22m"@
    }
}

/// Shows an alive cell as a bold one and a dead cell as a dim zero,
/// full-width or plain, and paints every projected row green.
#[derive(Debug)]
pub struct Digitize {
    alive: String,
    dead: String,
    ascii: bool,
}

impl Digitize {
    /// The full-width digit lens.
    pub fn new() -> (r: Digitize)
        ensures
            r.spec_alive() == spec_digit_alive(false),
            r.spec_dead() == spec_digit_dead(false),
    {
        Digitize {
            alive: String::from_str("\x1b[1m１\x1b[22m"),
            dead: String::from_str("\x1b[1m\x1b[2m０\x1b[22m"),
            ascii: false,
        }
    }

    /// The plain-digit lens, for terminals without full-width glyphs.
    pub fn ascii_compatible() -> (r: Digitize)
        ensures
            r.spec_alive() == spec_digit_alive(true),
            r.spec_dead() == spec_digit_dead(true),
    {
        Digitize {
            alive: String::from_str("\x1b[1m1\x1b[22m"),
            dead: String::from_str("\x1b[1m\x1b[2m0\x1b[22m"),
            ascii: true,
        }
    }

    /// The symbol this lens shows for an alive cell.
    pub closed spec fn spec_alive(&self) -> Seq<char> {
        self.alive@
    }

    /// The symbol this lens shows for a dead cell.
    pub closed spec fn spec_dead(&self) -> Seq<char> {
        self.dead@
    }
}

impl LensFilter for Digitize {
    open spec fn spec_observe(&self, gen: Matrix<bool>) -> Seq<Seq<char>> {
        Seq::new(
            gen.rows() as nat,
            |r: int|
                "\x1b[32m"@ + bool_row_text(gen, r, gen.cols(), self.spec_alive(), self.spec_dead())
                    + "\x1b[39m"@,
        )
    }

    fn observe(&self, gen: &Matrix<bool>) -> (r: Vec<String>)
        ensures
            r@.len() == self.spec_observe(*gen).len(),
            forall|i: int|
                0 <= i < r@.len() ==> (#[trigger] r@[i])@ == self.spec_observe(*gen)[i],
    {
        let plain: Vec<String> = super::project_rows(gen, self.alive.as_str(), self.dead.as_str());
        let mut rows: Vec<String> = Vec::new();
        let mut i: usize = 0;
        let nrows: usize = plain.len();
        while i < nrows
            invariant
                nrows == plain@.len(),
                nrows == gen.rows(),
                gen.wf(),
                i <= nrows,
                rows@.len() == i,
                forall|k: int|
                    0 <= k < nrows ==> (#[trigger] plain@[k])@ == bool_row_text(
                        *gen,
                        k,
                        gen.cols(),
                        self.spec_alive(),
                        self.spec_dead(),
                    ),
                forall|k: int|
                    0 <= k < i ==> (#[trigger] rows@[k])@ == self.spec_observe(*gen)[k],
            decreases nrows - i,
        {
            let mut line: String = String::from_str("\x1b[32m");
            line.append(plain[i].as_str());
            line.append("\x1b[39m");
            rows.push(line);
            i = i + 1;
        }
        rows
    }
}

} // verus!
