//! A fixed-shape, row-major 2D container with bounds-checked indexing and a
//! toroidal (wrapping) index variant.

use vstd::prelude::*;

verus! {

/// Proper mathematical modulo: the unique representative of `i` in `[0, n)`
/// for `n > 0`, so that any integer offset, however large in magnitude,
/// resolves to a valid coordinate.
pub open spec fn wrap(i: int, n: int) -> int
    recommends
        n > 0,
{
    i % n
}

/// A `nrows x ncols` matrix stored as one contiguous row-major vector.
#[derive(Clone, Debug)]
pub struct Matrix<T> {
    data: Vec<T>,
    nrows: usize,
    ncols: usize,
}

impl<T> View for Matrix<T> {
    type V = Seq<T>;

    closed spec fn view(&self) -> Seq<T> {
        self.data@
    }
}

impl<T> Matrix<T> {
    /// The shape is always `(nrows, ncols)` and the data holds exactly
    /// `nrows * ncols` elements; this holds from construction on.
    pub closed spec fn wf(&self) -> bool {
        self.data@.len() == self.nrows * self.ncols
    }

    pub open spec fn spec_shape(&self) -> (usize, usize) {
        (self.rows() as usize, self.cols() as usize)
    }

    pub closed spec fn rows(&self) -> int {
        self.nrows as int
    }

    pub closed spec fn cols(&self) -> int {
        self.ncols as int
    }

    /// The element at row `r`, column `c` of the row-major data.
    pub open spec fn entry(&self, r: int, c: int) -> T
        recommends
            self.wf(),
            0 <= r < self.rows(),
            0 <= c < self.cols(),
    {
        self@[r * self.cols() + c]
    }

    /// The element that `(r, c)` resolves to once both coordinates are
    /// wrapped around the grid edges.
    pub open spec fn wrapped_entry(&self, r: int, c: int) -> T
        recommends
            self.wf(),
            self.rows() > 0,
            self.cols() > 0,
    {
        self.entry(wrap(r, self.rows()), wrap(c, self.cols()))
    }

    /// Row and column counts, as `(nrows, ncols)`.
    pub fn shape(&self) -> (r: (usize, usize))
        ensures
            r == self.spec_shape(),
    {
        (self.nrows, self.ncols)
    }

    /// Number of rows.
    pub fn nrows(&self) -> (r: usize)
        ensures
            r == self.rows(),
    {
        self.nrows
    }

    /// Number of columns.
    pub fn ncols(&self) -> (r: usize)
        ensures
            r == self.cols(),
    {
        self.ncols
    }

    /// Total number of elements.
    pub fn size(&self) -> (r: usize)
        requires
            self.wf(),
        ensures
            r == self.rows() * self.cols(),
            r == self@.len(),
    {
        proof {
            lemma_wf_len(self);
        }
        Self::cal_size(self.nrows, self.ncols)
    }

    fn cal_size(nrows: usize, ncols: usize) -> (r: usize)
        requires
            nrows * ncols <= usize::MAX,
        ensures
            r == nrows * ncols,
    {
        nrows * ncols
    }

    /// Whether this matrix's shape is at least as large as `other`'s in both
    /// dimensions.
    pub fn can_hold<U>(&self, other: &Matrix<U>) -> (r: bool)
        ensures
            r == (self.rows() >= other.rows() && self.cols() >= other.cols()),
    {
        self.nrows >= other.nrows && self.ncols >= other.ncols
    }

    /// A borrow of the element at `(r, c)`; both coordinates must be in
    /// bounds.
    pub fn get(&self, r: usize, c: usize) -> (res: &T)
        requires
            self.wf(),
            r < self.rows(),
            c < self.cols(),
        ensures
            *res == self.entry(r as int, c as int),
    {
        proof {
            lemma_wf_len(self);
            lemma_flat_index_in_bounds(r as int, c as int, self.rows(), self.cols());
        }
        &self.data[r * self.ncols + c]
    }

    /// Replaces the element at `(r, c)`; both coordinates must be in bounds.
    pub fn set(&mut self, r: usize, c: usize, value: T)
        requires
            old(self).wf(),
            r < old(self).rows(),
            c < old(self).cols(),
        ensures
            final(self).wf(),
            final(self).rows() == old(self).rows(),
            final(self).cols() == old(self).cols(),
            final(self)@ == old(self)@.update(r * old(self).cols() + c, value),
    {
        proof {
            lemma_wf_len(self);
            lemma_flat_index_in_bounds(r as int, c as int, self.rows(), self.cols());
        }
        let flattened: usize = r * self.ncols + c;
        self.data.set(flattened, value);
    }

    /// A borrow of the element that `(row, col)` resolves to after wrapping
    /// both signed coordinates around the grid edges: the only sanctioned way
    /// a neighbor lookup crosses a grid edge.
    pub fn wrapping_index(&self, row: isize, col: isize) -> (res: &T)
        requires
            self.wf(),
            self.rows() > 0,
            self.cols() > 0,
        ensures
            *res == self.wrapped_entry(row as int, col as int),
    {
        let nrows_w: i128 = self.nrows as i128;
        let ncols_w: i128 = self.ncols as i128;
        let r: i128 = match (row as i128).checked_rem_euclid(nrows_w) {
            Some(r) => r,
            None => 0,
        };
        let c: i128 = match (col as i128).checked_rem_euclid(ncols_w) {
            Some(c) => c,
            None => 0,
        };
        self.get(r as usize, c as usize)
    }
}

impl<T: Copy + Default> Matrix<T> {
    /// Allocates a `nrows x ncols` matrix of default-valued elements. The
    /// element count must fit in `usize`.
    pub fn new(nrows: usize, ncols: usize) -> (res: Self)
        requires
            nrows * ncols <= usize::MAX,
        ensures
            res.wf(),
            res.rows() == nrows,
            res.cols() == ncols,
            res.spec_shape() == (nrows, ncols),
            forall|i: int|
                0 <= i < res@.len() ==> call_ensures(T::default, (), #[trigger] res@[i]),
    {
        let size: usize = Self::cal_size(nrows, ncols);
        let fill: T = T::default();
        let mut data: Vec<T> = Vec::new();
        let mut i: usize = 0;
        while i < size
            invariant
                i <= size,
                data@.len() == i,
                call_ensures(T::default, (), fill),
                forall|j: int| 0 <= j < i ==> call_ensures(T::default, (), #[trigger] data@[j]),
            decreases size - i,
        {
            data.push(fill);
            i = i + 1;
        }
        Matrix { data, nrows, ncols }
    }

    /// Builds a matrix of the given shape from a row-major slice, truncating
    /// it or padding it with default values to the exact element count.
    pub fn from_slice(slice: &[T], shape: (usize, usize)) -> (res: Self)
        requires
            shape.0 * shape.1 <= usize::MAX,
        ensures
            res.wf(),
            res.rows() == shape.0,
            res.cols() == shape.1,
            res.spec_shape() == shape,
            forall|i: int|
                0 <= i < res@.len() && i < slice@.len() ==> res@[i] == slice@[i],
            forall|i: int|
                slice@.len() <= i < res@.len() ==> call_ensures(
                    T::default,
                    (),
                    #[trigger] res@[i],
                ),
    {
        let size: usize = Self::cal_size(shape.0, shape.1);
        let fill: T = T::default();
        let mut data: Vec<T> = Vec::new();
        let mut i: usize = 0;
        while i < size
            invariant
                i <= size,
                data@.len() == i,
                call_ensures(T::default, (), fill),
                forall|j: int| 0 <= j < i && j < slice@.len() ==> #[trigger] data@[j] == slice@[j],
                forall|j: int|
                    slice@.len() <= j < i ==> call_ensures(T::default, (), #[trigger] data@[j]),
            decreases size - i,
        {
            if i < slice.len() {
                data.push(slice[i]);
            } else {
                data.push(fill);
            }
            i = i + 1;
        }
        Matrix { data, nrows: shape.0, ncols: shape.1 }
    }

    /// Copies this matrix's contents into `other`, whose shape must be at
    /// least as large in both dimensions; the flat row-major prefix of
    /// `other` is overwritten in place, without reallocating.
    pub fn overwrite(&self, other: &mut Matrix<T>)
        requires
            self.wf(),
            old(other).wf(),
            old(other).rows() >= self.rows(),
            old(other).cols() >= self.cols(),
        ensures
            final(other).wf(),
            final(other).rows() == old(other).rows(),
            final(other).cols() == old(other).cols(),
            final(other)@.len() == old(other)@.len(),
            forall|i: int| 0 <= i < self@.len() ==> final(other)@[i] == self@[i],
            forall|i: int|
                self@.len() <= i < final(other)@.len() ==> final(other)@[i] == old(other)@[i],
    {
        proof {
            lemma_size_monotonic(self.rows(), self.cols(), other.rows(), other.cols());
        }
        let len: usize = self.data.len();
        let mut index: usize = 0;
        while index < len
            invariant
                len == self@.len(),
                index <= len,
                self.wf(),
                other.wf(),
                other.spec_shape() == old(other).spec_shape(),
                other@.len() == old(other)@.len(),
                len <= other@.len(),
                forall|i: int| 0 <= i < index ==> other@[i] == self@[i],
                forall|i: int| index <= i < other@.len() ==> other@[i] == old(other)@[i],
            decreases len - index,
        {
            other.data.set(index, self.data[index]);
            index = index + 1;
        }
    }

    /// The rows of the matrix, from first to last, each as a fresh vector;
    /// re-invoking produces the same sequence from the start.
    pub fn iterrows(&self) -> (res: Vec<Vec<T>>)
        requires
            self.wf(),
        ensures
            res@.len() == self.rows(),
            forall|r: int|
                0 <= r < self.rows() ==> (#[trigger] res@[r])@ == self@.subrange(
                    r * self.cols(),
                    (r + 1) * self.cols(),
                ),
    {
        let nrows: usize = self.nrows;
        let ncols: usize = self.ncols;
        let mut rows: Vec<Vec<T>> = Vec::new();
        let mut r: usize = 0;
        while r < nrows
            invariant
                r <= nrows,
                self.wf(),
                nrows == self.rows(),
                ncols == self.cols(),
                rows@.len() == r,
                forall|k: int|
                    0 <= k < r ==> (#[trigger] rows@[k])@ == self@.subrange(
                        k * self.cols(),
                        (k + 1) * self.cols(),
                    ),
            decreases nrows - r,
        {
            let mut row: Vec<T> = Vec::new();
            let mut c: usize = 0;
            proof {
                lemma_wf_len(self);
                lemma_flat_row_in_bounds(r as int, self.rows(), self.cols());
            }
            while c < ncols
                invariant
                    c <= ncols,
                    r < nrows,
                    self.wf(),
                    nrows == self.rows(),
                    ncols == self.cols(),
                    (r + 1) * self.cols() <= self@.len(),
                    row@.len() == c,
                    forall|k: int| 0 <= k < c ==> #[trigger] row@[k] == self@[r * self.cols() + k],
                decreases ncols - c,
            {
                proof {
                    lemma_wf_len(self);
                    lemma_flat_index_in_bounds(r as int, c as int, self.rows(), self.cols());
                }
                row.push(self.data[r * ncols + c]);
                c = c + 1;
            }
            proof {
                assert((r + 1) * self.cols() == r * self.cols() + self.cols())
                    by (nonlinear_arith);
                assert(row@ =~= self@.subrange(r * self.cols(), (r + 1) * self.cols()));
            }
            rows.push(row);
            r = r + 1;
        }
        rows
    }

    /// The columns of the matrix, from first to last, each as a fresh vector;
    /// re-invoking produces the same sequence from the start.
    pub fn itercols(&self) -> (res: Vec<Vec<T>>)
        requires
            self.wf(),
        ensures
            res@.len() == self.cols(),
            forall|c: int|
                0 <= c < self.cols() ==> (#[trigger] res@[c])@ == Seq::new(
                    self.rows() as nat,
                    |r: int| self.entry(r, c),
                ),
    {
        let nrows: usize = self.nrows;
        let ncols: usize = self.ncols;
        let mut cols: Vec<Vec<T>> = Vec::new();
        let mut c: usize = 0;
        while c < ncols
            invariant
                c <= ncols,
                self.wf(),
                nrows == self.rows(),
                ncols == self.cols(),
                cols@.len() == c,
                forall|k: int|
                    0 <= k < c ==> (#[trigger] cols@[k])@ == Seq::new(
                        self.rows() as nat,
                        |r: int| self.entry(r, k),
                    ),
            decreases ncols - c,
        {
            let mut col: Vec<T> = Vec::new();
            let mut r: usize = 0;
            while r < nrows
                invariant
                    r <= nrows,
                    c < ncols,
                    self.wf(),
                    nrows == self.rows(),
                    ncols == self.cols(),
                    col@.len() == r,
                    forall|k: int| 0 <= k < r ==> #[trigger] col@[k] == self.entry(k, c as int),
                decreases nrows - r,
            {
                proof {
                    lemma_wf_len(self);
                    lemma_flat_index_in_bounds(r as int, c as int, self.rows(), self.cols());
                }
                col.push(self.data[r * ncols + c]);
                r = r + 1;
            }
            proof {
                assert(col@ =~= Seq::new(self.rows() as nat, |k: int| self.entry(k, c as int)));
            }
            cols.push(col);
            c = c + 1;
        }
        cols
    }
}

impl<T: Copy> Matrix<T> {
    /// A matrix of the same shape whose every element is the image of the
    /// element in place, under the given function.
    pub fn map<U: Copy, F: Fn(T) -> U>(&self, f: F) -> (res: Matrix<U>)
        requires
            self.wf(),
            forall|i: int| 0 <= i < self@.len() ==> call_requires(f, ((#[trigger] self@[i]),)),
        ensures
            res.wf(),
            res.rows() == self.rows(),
            res.cols() == self.cols(),
            res@.len() == self@.len(),
            forall|i: int|
                0 <= i < self@.len() ==> call_ensures(f, (self@[i],), #[trigger] res@[i]),
    {
        let nrows: usize = self.nrows;
        let ncols: usize = self.ncols;
        proof {
            lemma_wf_len(self);
        }
        let mut data: Vec<U> = Vec::new();
        let mut r: usize = 0;
        while r < nrows
            invariant
                self.wf(),
                nrows == self.rows(),
                ncols == self.cols(),
                forall|i: int| 0 <= i < self@.len() ==> call_requires(f, ((#[trigger] self@[i]),)),
                r <= nrows,
                data@.len() == r * ncols,
                r * ncols <= self@.len(),
                forall|j: int|
                    0 <= j < data@.len() ==> call_ensures(f, (self@[j],), #[trigger] data@[j]),
            decreases nrows - r,
        {
            let mut c: usize = 0;
            proof {
                lemma_wf_len(self);
                lemma_flat_row_in_bounds(r as int, self.rows(), self.cols());
            }
            while c < ncols
                invariant
                    self.wf(),
                    nrows == self.rows(),
                    ncols == self.cols(),
                    forall|i: int|
                        0 <= i < self@.len() ==> call_requires(f, ((#[trigger] self@[i]),)),
                    r < nrows,
                    c <= ncols,
                    (r + 1) * ncols <= self@.len(),
                    data@.len() == r * ncols + c,
                    forall|j: int|
                        0 <= j < data@.len() ==> call_ensures(f, (self@[j],), #[trigger] data@[j]),
                decreases ncols - c,
            {
                proof {
                    lemma_wf_len(self);
                    lemma_flat_index_in_bounds(r as int, c as int, self.rows(), self.cols());
                }
                let value: U = f(*self.get(r, c));
                data.push(value);
                c = c + 1;
            }
            proof {
                assert((r + 1) * ncols == r * ncols + ncols) by (nonlinear_arith);
            }
            r = r + 1;
        }
        proof {
            assert(r * ncols == self@.len()) by {
                lemma_wf_len(self);
            }
        }
        Matrix { data, nrows, ncols }
    }
}

/// A well-formed matrix's flat data holds exactly `rows * cols` elements,
/// and its shape components are its row and column counts.
pub broadcast proof fn lemma_wf_len<T>(m: &Matrix<T>)
    requires
        #[trigger] m.wf(),
    ensures
        m@.len() == m.rows() * m.cols(),
        m.rows() * m.cols() <= usize::MAX,
        0 <= m.rows(),
        0 <= m.cols(),
{
    broadcast use vstd::std_specs::vec::axiom_spec_len;

    assert(vstd::std_specs::vec::spec_vec_len(&m.data) == m.data@.len());
}

/// A row-major flat index stays within a matrix of the given shape.
pub proof fn lemma_flat_index_in_bounds(r: int, c: int, nrows: int, ncols: int)
    requires
        0 <= r < nrows,
        0 <= c < ncols,
    ensures
        0 <= r * ncols + c < nrows * ncols,
        (r + 1) * ncols <= nrows * ncols,
{
    lemma_flat_row_in_bounds(r, nrows, ncols);
    assert(r * ncols + c < (r + 1) * ncols) by (nonlinear_arith)
        requires
            c < ncols,
    ;
    assert(0 <= r * ncols) by (nonlinear_arith)
        requires
            0 <= r,
            0 <= ncols,
    ;
}

/// One past the end of row `r` stays within the flat data.
pub proof fn lemma_flat_row_in_bounds(r: int, nrows: int, ncols: int)
    requires
        0 <= r < nrows,
        0 <= ncols,
    ensures
        (r + 1) * ncols <= nrows * ncols,
{
    assert((r + 1) * ncols <= nrows * ncols) by (nonlinear_arith)
        requires
            r + 1 <= nrows,
            0 <= ncols,
    ;
}

/// A shape at least as large in both dimensions holds at least as many
/// elements.
pub proof fn lemma_size_monotonic(r0: int, c0: int, r1: int, c1: int)
    requires
        0 <= r0 <= r1,
        0 <= c0 <= c1,
    ensures
        r0 * c0 <= r1 * c1,
{
    assert(r0 * c0 <= r1 * c1) by (nonlinear_arith)
        requires
            0 <= r0 <= r1,
            0 <= c0 <= c1,
    ;
}

} // verus!
