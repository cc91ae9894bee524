//! Visual filters: each maps a cell to a printable piece of text. All
//! texts a filter returns are visually distinct and of one on-screen
//! width, so the rendered grid stays aligned.

pub use self::bit::Bit;
pub use self::block::Block;
pub use self::dye::Dye;
pub use self::emoji::Emoji;
pub use self::hanzi::Hanzi;

use crate::cell::Cell;
use vstd::prelude::*;

mod bit;
mod block;
mod dye;
mod emoji;
mod hanzi;

verus! {

/// Visual filter for a cell.
pub trait Filter {
    /// The text this filter shows for the given cell.
    spec fn spec_filter(&self, cell: Cell) -> Seq<char>;

    /// Returns the filtered representation of the given cell.
    fn filter(&self, cell: Cell) -> (r: &str)
        ensures
            r@ == self.spec_filter(cell),
    ;
}

} // verus!
