//! Seeding a world: building the genesis grid from per-cell states.
//! Drawing the states themselves -- from a seed and an initial density --
//! happens outside the library; the grid construction is here.

use crate::cell::Cell;
use crate::matrix::{lemma_wf_len, Matrix};
use vstd::prelude::*;

verus! {

/// A world creator: produces an initial boolean grid of a requested
/// shape.
pub trait WorldCreator {
    /// Creates a well-formed grid with the given row and column counts.
    fn create(&self, nrows: usize, ncols: usize) -> (r: Matrix<bool>)
        requires
            nrows * ncols <= usize::MAX,
        ensures
            r.wf(),
            r.rows() == nrows,
            r.cols() == ncols,
    ;
}

/// The barren creator: every world it makes holds no alive cell. The
/// seeded, density-driven creator belongs to the surrounding process,
/// where the randomness is drawn; this one is deterministic.
#[derive(Debug)]
pub struct BarrenGod;

impl WorldCreator for BarrenGod {
    fn create(&self, nrows: usize, ncols: usize) -> (r: Matrix<bool>) {
        Matrix::new(nrows, ncols)
    }
}

/// A genesis of a fixed shape: turns drawn per-cell states into the
/// initial cell grid.
#[derive(Debug)]
pub struct Genesis {
    nrows: usize,
    ncols: usize,
}

impl Genesis {
    pub closed spec fn spec_shape(&self) -> (usize, usize) {
        (self.nrows, self.ncols)
    }

    /// A genesis for grids of the given `(rows, columns)` shape.
    pub fn new(shape: (usize, usize)) -> (r: Self)
        ensures
            r.spec_shape() == shape,
    {
        Genesis { nrows: shape.0, ncols: shape.1 }
    }

    /// Builds the genesis grid from one drawn state per cell, in
    /// row-major order: `true` seeds an alive cell, `false` a dead one.
    pub fn from_states(&self, states: &[bool]) -> (g: Matrix<Cell>)
        requires
            self.spec_shape().0 * self.spec_shape().1 <= usize::MAX,
            states@.len() == self.spec_shape().0 * self.spec_shape().1,
        ensures
            g.wf(),
            g.rows() == self.spec_shape().0,
            g.cols() == self.spec_shape().1,
            g@.len() == states@.len(),
            forall|i: int|
                0 <= i < states@.len() ==> (#[trigger] g@[i]) == (if states@[i] {
                    Cell::Alive
                } else {
                    Cell::Dead
                }),
    {
        let n: usize = states.len();
        let mut cells: Vec<Cell> = Vec::new();
        let mut i: usize = 0;
        while i < n
            invariant
                n == states@.len(),
                i <= n,
                cells@.len() == i,
                forall|k: int|
                    0 <= k < i ==> (#[trigger] cells@[k]) == (if states@[k] {
                        Cell::Alive
                    } else {
                        Cell::Dead
                    }),
            decreases n - i,
        {
            if states[i] {
                cells.push(Cell::Alive);
            } else {
                cells.push(Cell::Dead);
            }
            i = i + 1;
        }
        let g: Matrix<Cell> = Matrix::from_slice(cells.as_slice(), (self.nrows, self.ncols));
        proof {
            lemma_wf_len(&g);
        }
        g
    }
}

} // verus!
