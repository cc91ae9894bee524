//! The block lens: a solid block per alive cell.

use super::{bool_row_text, spec_project, LensFilter};
use crate::matrix::Matrix;
use vstd::prelude::*;

verus! {

/// Shows an alive cell as a full-width block and a dead one as two
/// spaces.
#[derive(Debug)]
pub struct Blockify;

impl Blockify {
    /// A block lens.
    pub fn new() -> (r: Blockify)
        ensures
            forall|g: Matrix<bool>| r.spec_observe(g) == spec_project(g, "██"@, "  "@),
    {
        Blockify
    }
}

impl LensFilter for Blockify {
    open spec fn spec_observe(&self, gen: Matrix<bool>) -> Seq<Seq<char>> {
        spec_project(gen, "██"@, "  "@)
    }

    fn observe(&self, gen: &Matrix<bool>) -> (r: Vec<String>)
        ensures
            r@.len() == self.spec_observe(*gen).len(),
            forall|i: int|
                0 <= i < r@.len() ==> (#[trigger] r@[i])@ == self.spec_observe(*gen)[i],
    {
        let rows: Vec<String> = super::project_rows(gen, "██", "  ");
        proof {
            assert(forall|i: int|
                0 <= i < rows@.len() ==> (#[trigger] rows@[i])@ == bool_row_text(
                    *gen,
                    i,
                    gen.cols(),
                    "██"@,
                    "  "@,
                ));
        }
        rows
    }
}

} // verus!
