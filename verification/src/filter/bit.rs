//! The bit filter: a bold green digit per cell, dimmed when dead.

use super::Filter;
use crate::cell::Cell;
use vstd::prelude::*;

verus! {

/// Shows a dead cell as a dim green `0 ` and an alive cell as a bright
/// green `1 `.
#[derive(Clone, Debug, PartialEq, Eq, Structural)]
pub struct Bit;

impl Filter for Bit {
    open spec fn spec_filter(&self, cell: Cell) -> Seq<char> {
        match cell {
            Cell::Dead => "\x1b[1m\x1b[2m\x1b[32m0 \x1b[39m\x1b[22m"@,
            Cell::Alive => "\x1b[1m\x1b[32m1 \x1b[39m\x1b[22m"@,
        }
    }

    fn filter(&self, cell: Cell) -> (r: &str)
        ensures
            r@ == self.spec_filter(cell),
    {
        match cell {
            Cell::Dead => "\x1b[1m\x1b[2m\x1b[32m0 \x1b[39m\x1b[22m",
            Cell::Alive => "\x1b[1m\x1b[32m1 \x1b[39m\x1b[22m",
        }
    }
}

} // verus!
