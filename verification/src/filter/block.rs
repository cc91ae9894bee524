//! The block filter: a solid block per alive cell.

use super::Filter;
use crate::cell::Cell;
use vstd::prelude::*;

verus! {

/// Shows a dead cell as two spaces and an alive cell as a full-width
/// block.
#[derive(Debug, PartialEq, Eq, Structural)]
pub struct Block;

impl Filter for Block {
    open spec fn spec_filter(&self, cell: Cell) -> Seq<char> {
        match cell {
            Cell::Dead => "  "@,
            Cell::Alive => "██"@,
        }
    }

    fn filter(&self, cell: Cell) -> (r: &str)
        ensures
            r@ == self.spec_filter(cell),
    {
        match cell {
            Cell::Dead => "  ",
            Cell::Alive => "██",
        }
    }
}

} // verus!
