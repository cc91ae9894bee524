//! The evolution engine: a double-buffered grid of cells advanced under
//! Conway's rule with toroidal neighbor lookups, plus population and
//! generation bookkeeping.

use crate::cell::Cell;
use crate::matrix::{lemma_flat_index_in_bounds, lemma_wf_len, wrap, Matrix};
use vstd::arithmetic::div_mod::{
    lemma_mod_add_multiples_vanish, lemma_mod_self_0, lemma_small_mod,
};
use vstd::prelude::*;

verus! {

/// One if the cell is alive, zero if it is dead.
pub open spec fn alive_weight(cell: Cell) -> int {
    if cell == Cell::Alive {
        1int
    } else {
        0int
    }
}

/// The opposite state of a cell.
pub open spec fn flipped(cell: Cell) -> Cell {
    if cell == Cell::Alive {
        Cell::Dead
    } else {
        Cell::Alive
    }
}

/// How many of the cells are alive.
pub open spec fn count_alive(s: Seq<Cell>) -> int
    decreases s.len(),
{
    if s.len() == 0 {
        0
    } else {
        count_alive(s.drop_last()) + alive_weight(s.last())
    }
}

/// Conway's rule for one cell: a dead cell with exactly three alive
/// neighbors becomes alive; an alive cell with a neighbor count outside two
/// to three dies; every other cell keeps its state.
pub open spec fn life_rule(state: Cell, neighbors: int) -> Cell {
    match state {
        Cell::Dead => if neighbors == 3 {
            Cell::Alive
        } else {
            Cell::Dead
        },
        Cell::Alive => if 2 <= neighbors <= 3 {
            Cell::Alive
        } else {
            Cell::Dead
        },
    }
}

/// The weight of the wrapped neighbor of `(r, c)` at the given offset.
pub open spec fn offset_weight(g: Matrix<Cell>, r: int, c: int, dr: int, dc: int) -> int {
    alive_weight(g.wrapped_entry(r + dr, c + dc))
}

/// How many of the eight toroidal neighbors of `(r, c)` are alive. The
/// offset `(0, 0)` is excluded, but a small grid may reach the same cell --
/// even `(r, c)` itself -- through several offsets, and then counts it once
/// per offset.
pub open spec fn neighbor_count(g: Matrix<Cell>, r: int, c: int) -> int {
    offset_weight(g, r, c, -1, -1) + offset_weight(g, r, c, -1, 0) + offset_weight(g, r, c, -1, 1)
        + offset_weight(g, r, c, 0, -1) + offset_weight(g, r, c, 0, 1) + offset_weight(
        g,
        r,
        c,
        1,
        -1,
    ) + offset_weight(g, r, c, 1, 0) + offset_weight(g, r, c, 1, 1)
}

/// The state that `(r, c)` takes in the next generation of `g`.
pub open spec fn next_state(g: Matrix<Cell>, r: int, c: int) -> Cell {
    life_rule(g.entry(r, c), neighbor_count(g, r, c))
}

/// The count of alive cells never exceeds the number of cells.
pub proof fn lemma_count_alive_le_len(s: Seq<Cell>)
    ensures
        0 <= count_alive(s) <= s.len(),
    decreases s.len(),
{
    if s.len() > 0 {
        lemma_count_alive_le_len(s.drop_last());
    }
}

/// Replacing one cell changes the count of alive cells by the difference of
/// the two cells' weights.
pub proof fn lemma_count_alive_update(s: Seq<Cell>, i: int, v: Cell)
    requires
        0 <= i < s.len(),
    ensures
        count_alive(s.update(i, v)) == count_alive(s) - alive_weight(s[i]) + alive_weight(v),
    decreases s.len(),
{
    if i == s.len() - 1 {
        assert(s.update(i, v).drop_last() =~= s.drop_last());
    } else {
        assert(s.update(i, v).drop_last() =~= s.drop_last().update(i, v));
        lemma_count_alive_update(s.drop_last(), i, v);
    }
}

/// Extending a prefix by one cell adds that cell's weight to the count.
pub proof fn lemma_count_alive_take_step(s: Seq<Cell>, i: int)
    requires
        0 <= i < s.len(),
    ensures
        count_alive(s.take(i + 1)) == count_alive(s.take(i)) + alive_weight(s[i]),
{
    assert(s.take(i + 1).drop_last() =~= s.take(i));
    assert(s.take(i + 1).last() == s[i]);
}

/// Distinct in-range coordinate pairs map to distinct row-major flat
/// indices.
pub proof fn lemma_flat_index_injective(r0: int, c0: int, r1: int, c1: int, ncols: int)
    requires
        0 <= c0 < ncols,
        0 <= c1 < ncols,
        0 <= r0,
        0 <= r1,
        (r0, c0) != (r1, c1),
    ensures
        r0 * ncols + c0 != r1 * ncols + c1,
{
    assert(r0 * ncols + c0 != r1 * ncols + c1) by (nonlinear_arith)
        requires
            0 <= c0 < ncols,
            0 <= c1 < ncols,
            0 <= r0,
            0 <= r1,
            !(r0 == r1 && c0 == c1),
    ;
}

/// Wrapping one step up or left from coordinate `i` lands on the previous
/// coordinate, or on the far edge when `i` is zero.
proof fn lemma_wrap_dec(i: int, n: int)
    requires
        0 <= i < n,
    ensures
        wrap(i - 1, n) == if i == 0 {
            n - 1
        } else {
            i - 1
        },
{
    if i == 0 {
        lemma_mod_add_multiples_vanish(-1, n);
        lemma_small_mod((n - 1) as nat, n as nat);
    } else {
        lemma_small_mod((i - 1) as nat, n as nat);
    }
}

/// Wrapping one step down or right from coordinate `i` lands on the next
/// coordinate, or on zero when `i` is the last one.
proof fn lemma_wrap_inc(i: int, n: int)
    requires
        0 <= i < n,
    ensures
        wrap(i + 1, n) == if i + 1 == n {
            0
        } else {
            i + 1
        },
{
    if i + 1 == n {
        lemma_mod_self_0(n);
    } else {
        lemma_small_mod((i + 1) as nat, n as nat);
    }
}

/// An in-range coordinate wraps to itself.
proof fn lemma_wrap_id(i: int, n: int)
    requires
        0 <= i < n,
    ensures
        wrap(i, n) == i,
{
    lemma_small_mod(i as nat, n as nat);
}

/// On a one-by-one grid every one of the eight neighbor offsets wraps back
/// to the single cell, so that cell counts itself as all eight of its own
/// neighbors.
pub proof fn lemma_unit_grid_self_neighbors(g: Matrix<Cell>)
    requires
        g.wf(),
        g.rows() == 1,
        g.cols() == 1,
    ensures
        neighbor_count(g, 0, 0) == 8 * alive_weight(g.entry(0, 0)),
{
    lemma_wrap_dec(0, 1);
    lemma_wrap_inc(0, 1);
    lemma_wrap_id(0, 1);
}

/// On any non-empty grid, the cell at `(0, 0)` reaches the cell at the
/// opposite corner `(rows - 1, cols - 1)` through the `(-1, -1)` diagonal
/// offset.
pub proof fn lemma_corner_diagonal_neighbor(g: Matrix<Cell>)
    requires
        g.wf(),
        g.rows() > 0,
        g.cols() > 0,
    ensures
        g.wrapped_entry(-1, -1) == g.entry(g.rows() - 1, g.cols() - 1),
{
    lemma_wrap_dec(0, g.rows());
    lemma_wrap_dec(0, g.cols());
}

/// The evolution engine: owns the authoritative `current` grid and a `next`
/// scratch buffer of the same shape, applies Conway's rule once per tick,
/// and tracks the running population and generation counters.
#[derive(Debug)]
pub struct BioSquare {
    generation: usize,
    population: usize,
    current: Matrix<Cell>,
    next: Matrix<Cell>,
}

impl BioSquare {
    /// The authoritative, externally observable grid.
    pub closed spec fn grid(&self) -> Matrix<Cell> {
        self.current
    }

    /// The monotonic tick counter.
    pub closed spec fn spec_generation(&self) -> int {
        self.generation as int
    }

    /// The running count of alive cells in the current grid.
    pub closed spec fn spec_population(&self) -> int {
        self.population as int
    }

    /// Outside of an in-progress `evolve` call: both buffers are well formed
    /// and of one shape, hold bit-identical contents, and the population
    /// counter equals the count of alive cells in the current grid.
    pub closed spec fn wf(&self) -> bool {
        &&& self.current.wf()
        &&& self.next.wf()
        &&& self.next.rows() == self.current.rows()
        &&& self.next.cols() == self.current.cols()
        &&& self.next@ == self.current@
        &&& self.population == count_alive(self.current@)
    }

    /// Builds an engine from an initial grid, counting its alive cells as
    /// the starting population; the generation counter starts at zero.
    pub fn new(genesis: Matrix<Cell>) -> (res: Self)
        requires
            genesis.wf(),
        ensures
            res.wf(),
            res.grid() == genesis,
            res.spec_generation() == 0,
            res.spec_population() == count_alive(genesis@),
    {
        let population: usize = Self::recount(&genesis);
        let nrows: usize = genesis.nrows();
        let ncols: usize = genesis.ncols();
        proof {
            lemma_wf_len(&genesis);
        }
        let mut next: Matrix<Cell> = Matrix::new(nrows, ncols);
        proof {
            lemma_wf_len(&next);
        }
        genesis.overwrite(&mut next);
        proof {
            lemma_wf_len(&next);
            assert(next@ =~= genesis@);
        }
        BioSquare { generation: 0, population, current: genesis, next }
    }

    /// Counts the alive cells of a grid by brute force.
    pub fn recount(g: &Matrix<Cell>) -> (n: usize)
        requires
            g.wf(),
        ensures
            n == count_alive(g@),
    {
        let nrows: usize = g.nrows();
        let ncols: usize = g.ncols();
        proof {
            lemma_wf_len(g);
        }
        let mut n: usize = 0;
        let mut r: usize = 0;
        while r < nrows
            invariant
                g.wf(),
                nrows == g.rows(),
                ncols == g.cols(),
                r <= nrows,
                n == count_alive(g@.take(r * ncols)),
                r * ncols <= g@.len(),
            decreases nrows - r,
        {
            let mut c: usize = 0;
            proof {
                lemma_flat_row_bound(r as int, nrows as int, ncols as int);
                lemma_wf_len(g);
            }
            while c < ncols
                invariant
                    g.wf(),
                    nrows == g.rows(),
                    ncols == g.cols(),
                    r < nrows,
                    c <= ncols,
                    (r + 1) * ncols <= g@.len(),
                    r * ncols + c <= g@.len(),
                    n == count_alive(g@.take(r * ncols + c)),
                decreases ncols - c,
            {
                proof {
                    lemma_wf_len(g);
                    lemma_flat_index_in_bounds(r as int, c as int, g.rows(), g.cols());
                    lemma_count_alive_take_step(g@, (r * ncols + c) as int);
                    lemma_count_alive_le_len(g@.take((r * ncols + c) as int));
                }
                let state: Cell = *g.get(r, c);
                if state.is_alive() {
                    n = n + 1;
                }
                c = c + 1;
            }
            proof {
                assert((r + 1) * ncols == r * ncols + ncols) by (nonlinear_arith);
            }
            r = r + 1;
        }
        proof {
            assert(r * ncols == g@.len()) by {
                lemma_wf_len(g);
                assert(r == nrows);
                assert(nrows * ncols == g@.len());
            }
            assert(g@.take(g@.len() as int) =~= g@);
        }
        n
    }

    /// A read-only view of the current grid; no side effects.
    pub fn observe(&self) -> (res: &Matrix<Cell>)
        ensures
            *res == self.grid(),
    {
        &self.current
    }

    /// The number of completed evolution steps.
    pub fn generation(&self) -> (r: usize)
        ensures
            r == self.spec_generation(),
    {
        self.generation
    }

    /// The number of alive cells in the current grid.
    pub fn population(&self) -> (r: usize)
        ensures
            r == self.spec_population(),
    {
        self.population
    }

    /// Row and column counts of the grid.
    pub fn shape(&self) -> (r: (usize, usize))
        ensures
            r == self.grid().spec_shape(),
    {
        self.current.shape()
    }

    /// Number of grid rows.
    pub fn nrows(&self) -> (r: usize)
        ensures
            r == self.grid().rows(),
    {
        self.current.nrows()
    }

    /// Number of grid columns.
    pub fn ncols(&self) -> (r: usize)
        ensures
            r == self.grid().cols(),
    {
        self.current.ncols()
    }

    /// Total number of grid cells.
    pub fn size(&self) -> (r: usize)
        requires
            self.wf(),
        ensures
            r == self.grid().rows() * self.grid().cols(),
    {
        self.current.size()
    }

    /// Counts the alive cells among the eight toroidal neighbors of
    /// `(r, c)`.
    #[verifier::rlimit(50)]
    fn count_neighbors(g: &Matrix<Cell>, r: usize, c: usize) -> (n: usize)
        requires
            g.wf(),
            r < g.rows(),
            c < g.cols(),
        ensures
            n == neighbor_count(*g, r as int, c as int),
            n <= 8,
    {
        let nrows: usize = g.nrows();
        let ncols: usize = g.ncols();
        let up: usize = if r == 0 {
            nrows - 1
        } else {
            r - 1
        };
        let down: usize = if r + 1 == nrows {
            0
        } else {
            r + 1
        };
        let left: usize = if c == 0 {
            ncols - 1
        } else {
            c - 1
        };
        let right: usize = if c + 1 == ncols {
            0
        } else {
            c + 1
        };
        proof {
            lemma_wrap_dec(r as int, nrows as int);
            lemma_wrap_inc(r as int, nrows as int);
            lemma_wrap_id(r as int, nrows as int);
            lemma_wrap_dec(c as int, ncols as int);
            lemma_wrap_inc(c as int, ncols as int);
            lemma_wrap_id(c as int, ncols as int);
        }
        let mut n: usize = 0;
        if g.get(up, left).is_alive() {
            n = n + 1;
        }
        if g.get(up, c).is_alive() {
            n = n + 1;
        }
        if g.get(up, right).is_alive() {
            n = n + 1;
        }
        if g.get(r, left).is_alive() {
            n = n + 1;
        }
        if g.get(r, right).is_alive() {
            n = n + 1;
        }
        if g.get(down, left).is_alive() {
            n = n + 1;
        }
        if g.get(down, c).is_alive() {
            n = n + 1;
        }
        if g.get(down, right).is_alive() {
            n = n + 1;
        }
        n
    }

    /// Advances the automaton by one generation: recomputes every cell of
    /// the scratch buffer from the current grid under Conway's rule with
    /// toroidal neighbor lookups, adjusting the population counter only on
    /// actual state changes, then copies the scratch buffer over the current
    /// grid. After the call the population counter again equals the exact
    /// count of alive cells in the current grid.
    pub fn evolve(&mut self)
        requires
            old(self).wf(),
            old(self).spec_generation() < usize::MAX,
        ensures
            final(self).wf(),
            final(self).spec_generation() == old(self).spec_generation() + 1,
            final(self).grid().spec_shape() == old(self).grid().spec_shape(),
            final(self).grid().wf(),
            forall|r: int, c: int|
                0 <= r < old(self).grid().rows() && 0 <= c < old(self).grid().cols()
                    ==> #[trigger] final(self).grid().entry(r, c) == next_state(
                    old(self).grid(),
                    r,
                    c,
                ),
            final(self).spec_population() == count_alive(final(self).grid()@),
    {
        self.generation = self.generation + 1;
        let nrows: usize = self.current.nrows();
        let ncols: usize = self.current.ncols();
        if nrows == 0 || ncols == 0 {
            // An empty grid: there is no cell to recompute.
            return ;
        }
        let mut r: usize = 0;
        while r < nrows
            invariant
                self.current == old(self).grid(),
                self.generation == old(self).spec_generation() + 1,
                self.current.wf(),
                self.next.wf(),
                self.next.rows() == self.current.rows(),
                self.next.cols() == self.current.cols(),
                nrows == self.current.rows(),
                ncols == self.current.cols(),
                nrows > 0,
                ncols > 0,
                r <= nrows,
                self.population == count_alive(self.next@),
                forall|rr: int, cc: int|
                    0 <= rr < nrows && 0 <= cc < ncols && rr < r
                        ==> #[trigger] self.next.entry(rr, cc) == next_state(self.current, rr, cc),
                forall|rr: int, cc: int|
                    0 <= rr < nrows && 0 <= cc < ncols && rr >= r
                        ==> #[trigger] self.next.entry(rr, cc) == self.current.entry(rr, cc),
            decreases nrows - r,
        {
            let mut c: usize = 0;
            while c < ncols
                invariant
                    self.current == old(self).grid(),
                    self.generation == old(self).spec_generation() + 1,
                    self.current.wf(),
                    self.next.wf(),
                    self.next.rows() == self.current.rows(),
                    self.next.cols() == self.current.cols(),
                    nrows == self.current.rows(),
                    ncols == self.current.cols(),
                    nrows > 0,
                    ncols > 0,
                    r < nrows,
                    c <= ncols,
                    self.population == count_alive(self.next@),
                    forall|rr: int, cc: int|
                        0 <= rr < nrows && 0 <= cc < ncols && (rr < r || (rr == r && cc < c))
                            ==> #[trigger] self.next.entry(rr, cc) == next_state(
                            self.current,
                            rr,
                            cc,
                        ),
                    forall|rr: int, cc: int|
                        0 <= rr < nrows && 0 <= cc < ncols && (rr > r || (rr == r && cc >= c))
                            ==> #[trigger] self.next.entry(rr, cc) == self.current.entry(rr, cc),
                decreases ncols - c,
            {
                let neighbors: usize = Self::count_neighbors(&self.current, r, c);
                let state: Cell = *self.current.get(r, c);
                let ghost prev_next = self.next;
                let ghost idx = r * self.current.cols() + c;
                proof {
                    lemma_wf_len(&self.next);
                    lemma_flat_index_in_bounds(r as int, c as int, nrows as int, ncols as int);
                }
                let mut changed: bool = false;
                match state {
                    Cell::Dead => {
                        if neighbors == 3 {
                            proof {
                                assert(prev_next.entry(r as int, c as int) == self.current.entry(
                                    r as int,
                                    c as int,
                                ));
                                assert(prev_next@[idx] == prev_next.entry(r as int, c as int));
                                lemma_count_alive_update(prev_next@, idx, Cell::Alive);
                                lemma_count_alive_le_len(prev_next@.update(idx, Cell::Alive));
                            }
                            self.next.set(r, c, Cell::Alive);
                            self.population = self.population + 1;
                            changed = true;
                        }
                    },
                    Cell::Alive => {
                        if !(neighbors == 2 || neighbors == 3) {
                            proof {
                                assert(prev_next.entry(r as int, c as int) == self.current.entry(
                                    r as int,
                                    c as int,
                                ));
                                assert(prev_next@[idx] == prev_next.entry(r as int, c as int));
                                lemma_count_alive_update(prev_next@, idx, Cell::Dead);
                                lemma_count_alive_le_len(prev_next@.update(idx, Cell::Dead));
                            }
                            self.next.set(r, c, Cell::Dead);
                            self.population = self.population - 1;
                            changed = true;
                        }
                    },
                }
                proof {
                    if changed {
                        assert forall|rr: int, cc: int|
                            0 <= rr < nrows && 0 <= cc < ncols && (rr, cc) != (
                                r as int,
                                c as int,
                            ) implies #[trigger] self.next.entry(rr, cc) == prev_next.entry(
                            rr,
                            cc,
                        ) by {
                            lemma_flat_index_injective(rr, cc, r as int, c as int, ncols as int);
                            lemma_flat_index_in_bounds(rr, cc, nrows as int, ncols as int);
                        }
                    }
                }
                c = c + 1;
            }
            r = r + 1;
        }
        let source: &Matrix<Cell> = &self.next;
        source.overwrite(&mut self.current);
        proof {
            lemma_wf_len(&self.next);
            lemma_wf_len(&self.current);
            assert(self.current@ =~= self.next@);
            assert forall|rr: int, cc: int|
                0 <= rr < old(self).grid().rows() && 0 <= cc
                    < old(self).grid().cols() implies #[trigger] self.grid().entry(rr, cc)
                == next_state(old(self).grid(), rr, cc) by {
                assert(self.next.entry(rr, cc) == next_state(old(self).grid(), rr, cc));
            }
        }
    }

    /// Toggles the state of every cell whose flat row-major position is
    /// marked in `flips` (one pre-drawn decision per cell), adjusting the
    /// population counter once per actual state change.
    pub fn random_flip(&mut self, flips: &[bool])
        requires
            old(self).wf(),
            flips@.len() == old(self).grid()@.len(),
        ensures
            final(self).wf(),
            final(self).spec_generation() == old(self).spec_generation(),
            final(self).grid().spec_shape() == old(self).grid().spec_shape(),
            final(self).grid()@.len() == old(self).grid()@.len(),
            forall|i: int|
                0 <= i < old(self).grid()@.len() ==> #[trigger] final(self).grid()@[i] == (
                if flips@[i] {
                    flipped(old(self).grid()@[i])
                } else {
                    old(self).grid()@[i]
                }),
            final(self).spec_population() == count_alive(final(self).grid()@),
    {
        let nrows: usize = self.current.nrows();
        let ncols: usize = self.current.ncols();
        proof {
            lemma_wf_len(&self.current);
        }
        let mut r: usize = 0;
        while r < nrows
            invariant
                self.generation == old(self).spec_generation(),
                self.current.wf(),
                self.next.wf(),
                self.next.rows() == self.current.rows(),
                self.next.cols() == self.current.cols(),
                self.current.rows() == old(self).grid().rows(),
                self.current.cols() == old(self).grid().cols(),
                self.current@.len() == old(self).grid()@.len(),
                flips@.len() == old(self).grid()@.len(),
                nrows == self.current.rows(),
                ncols == self.current.cols(),
                r <= nrows,
                self.next@ == self.current@,
                self.population == count_alive(self.current@),
                forall|i: int|
                    0 <= i < old(self).grid()@.len() && i < r * ncols
                        ==> #[trigger] self.current@[i] == (if flips@[i] {
                        flipped(old(self).grid()@[i])
                    } else {
                        old(self).grid()@[i]
                    }),
                forall|i: int|
                    r * ncols <= i < old(self).grid()@.len() ==> #[trigger] self.current@[i] == old(
                        self,
                    ).grid()@[i],
            decreases nrows - r,
        {
            let mut c: usize = 0;
            proof {
                lemma_wf_len(&self.current);
                lemma_flat_row_bound(r as int, nrows as int, ncols as int);
            }
            while c < ncols
                invariant
                    self.generation == old(self).spec_generation(),
                    self.current.wf(),
                    self.next.wf(),
                    self.next.rows() == self.current.rows(),
                    self.next.cols() == self.current.cols(),
                    self.current.rows() == old(self).grid().rows(),
                    self.current.cols() == old(self).grid().cols(),
                    self.current@.len() == old(self).grid()@.len(),
                    flips@.len() == old(self).grid()@.len(),
                    nrows == self.current.rows(),
                    ncols == self.current.cols(),
                    r < nrows,
                    c <= ncols,
                    (r + 1) * ncols <= self.current@.len(),
                    self.next@ == self.current@,
                    self.population == count_alive(self.current@),
                    forall|i: int|
                        0 <= i < old(self).grid()@.len() && i < r * ncols + c
                            ==> #[trigger] self.current@[i] == (if flips@[i] {
                            flipped(old(self).grid()@[i])
                        } else {
                            old(self).grid()@[i]
                        }),
                    forall|i: int|
                        r * ncols + c <= i < old(self).grid()@.len()
                            ==> #[trigger] self.current@[i] == old(self).grid()@[i],
                decreases ncols - c,
            {
                proof {
                    lemma_wf_len(&self.current);
                    lemma_flat_index_in_bounds(r as int, c as int, nrows as int, ncols as int);
                }
                let idx: usize = r * ncols + c;
                if flips[idx] {
                    let ghost prev = self.current;
                    let state: Cell = *self.current.get(r, c);
                    match state {
                        Cell::Dead => {
                            proof {
                                lemma_count_alive_update(prev@, idx as int, Cell::Alive);
                                lemma_count_alive_le_len(prev@.update(idx as int, Cell::Alive));
                            }
                            self.current.set(r, c, Cell::Alive);
                            self.next.set(r, c, Cell::Alive);
                            self.population = self.population + 1;
                        },
                        Cell::Alive => {
                            proof {
                                lemma_count_alive_update(prev@, idx as int, Cell::Dead);
                                lemma_count_alive_le_len(prev@.update(idx as int, Cell::Dead));
                            }
                            self.current.set(r, c, Cell::Dead);
                            self.next.set(r, c, Cell::Dead);
                            self.population = self.population - 1;
                        },
                    }
                    proof {
                        assert(self.next@ =~= self.current@);
                    }
                }
                c = c + 1;
            }
            proof {
                assert((r + 1) * ncols == r * ncols + ncols) by (nonlinear_arith);
            }
            r = r + 1;
        }
        proof {
            lemma_wf_len(&self.current);
            assert(r == nrows);
            assert(r * ncols == self.current@.len()) by {
                assert(nrows * ncols == self.current@.len());
            }
        }
    }
}

/// The population counter of a well-formed engine equals the brute force
/// recount of alive cells in its observable grid.
pub proof fn lemma_population_is_count(b: &BioSquare)
    requires
        b.wf(),
    ensures
        b.spec_population() == count_alive(b.grid()@),
{
}

/// One past the end of row `r` stays within a grid of the given shape.
proof fn lemma_flat_row_bound(r: int, nrows: int, ncols: int)
    requires
        0 <= r < nrows,
        0 <= ncols,
    ensures
        (r + 1) * ncols <= nrows * ncols,
        0 <= r * ncols,
{
    assert((r + 1) * ncols <= nrows * ncols && 0 <= r * ncols) by (nonlinear_arith)
        requires
            r + 1 <= nrows,
            0 <= r,
            0 <= ncols,
    ;
}

} // verus!
