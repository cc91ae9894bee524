//! The hanzi filter: one bold character per cell, dimmed when dead.

use super::Filter;
use crate::cell::Cell;
use vstd::prelude::*;

verus! {

/// Shows a dead cell as a dim bold 死 and an alive cell as a bold 生.
#[derive(Debug, PartialEq, Eq, Structural)]
pub struct Hanzi;

impl Filter for Hanzi {
    open spec fn spec_filter(&self, cell: Cell) -> Seq<char> {
        match cell {
            Cell::Dead => "\x1b[1m\x1b[2m死\x1b[22m"@,
            Cell::Alive => "\x1b[1m生\x1b[22m"@,
        }
    }

    fn filter(&self, cell: Cell) -> (r: &str)
        ensures
            r@ == self.spec_filter(cell),
    {
        match cell {
            Cell::Dead => "\x1b[1m\x1b[2m死\x1b[22m",
            Cell::Alive => "\x1b[1m生\x1b[22m",
        }
    }
}

} // verus!
