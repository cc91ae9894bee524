//! An n-dimensional array in row-major order, with precomputed strides.

use vstd::prelude::*;

verus! {

/// The product of the dimensions from position `i` on; one for the empty
/// suffix.
pub open spec fn suffix_product(shape: Seq<usize>, i: int) -> int
    recommends
        0 <= i <= shape.len(),
    decreases shape.len() - i,
{
    if i < 0 || i >= shape.len() {
        1
    } else {
        shape[i] * suffix_product(shape, i + 1)
    }
}

/// How many elements an array of the given shape holds: the product of
/// its dimensions, where a shape with no dimensions at all holds no
/// elements -- the fold over no dimensions leaves none to allocate.
pub open spec fn spec_size(shape: Seq<usize>) -> int {
    if shape.len() == 0 {
        0
    } else {
        suffix_product(shape, 0)
    }
}

/// The row-major flat position of a multi-index, summed from dimension
/// `i` on: each coordinate weighted with the product of the dimensions
/// behind it.
pub open spec fn flat_from(index: Seq<usize>, shape: Seq<usize>, i: int) -> int
    recommends
        index.len() == shape.len(),
        0 <= i <= shape.len(),
    decreases shape.len() - i,
{
    if i < 0 || i >= shape.len() {
        0
    } else {
        index[i] * suffix_product(shape, i + 1) + flat_from(index, shape, i + 1)
    }
}

/// A suffix product is never negative.
pub proof fn lemma_suffix_product_nonneg(shape: Seq<usize>, i: int)
    ensures
        0 <= suffix_product(shape, i),
    decreases shape.len() - i,
{
    if 0 <= i < shape.len() {
        lemma_suffix_product_nonneg(shape, i + 1);
        assert(0 <= shape[i] * suffix_product(shape, i + 1)) by (nonlinear_arith)
            requires
                0 <= shape[i] as int,
                0 <= suffix_product(shape, i + 1),
        ;
    }
}

/// An in-bounds multi-index has a flat position within the array: the
/// weighted sum from dimension `i` on stays below the suffix product from
/// `i` on.
pub proof fn lemma_flat_in_bounds(index: Seq<usize>, shape: Seq<usize>, i: int)
    requires
        index.len() == shape.len(),
        0 <= i <= shape.len(),
        forall|k: int| i <= k < shape.len() ==> (#[trigger] index[k]) < shape[k],
    ensures
        0 <= flat_from(index, shape, i) < suffix_product(shape, i),
    decreases shape.len() - i,
{
    if i < shape.len() {
        lemma_flat_in_bounds(index, shape, i + 1);
        lemma_suffix_product_nonneg(shape, i + 1);
        assert((index[i] + 1) * suffix_product(shape, i + 1) <= shape[i] * suffix_product(
            shape,
            i + 1,
        )) by (nonlinear_arith)
            requires
                index[i] + 1 <= shape[i] as int,
                0 <= suffix_product(shape, i + 1),
        ;
        assert(index[i] * suffix_product(shape, i + 1) + suffix_product(shape, i + 1) == (index[i]
            + 1) * suffix_product(shape, i + 1)) by (nonlinear_arith);
    }
}

/// An n-dimensional array: a flat row-major data vector, the dimension
/// sizes, and one stride per dimension.
#[derive(Debug)]
pub struct NDArray<T> {
    data: Vec<T>,
    shape: Vec<usize>,
    strides: Vec<usize>,
}

impl<T> NDArray<T> {
    pub closed spec fn spec_shape(&self) -> Seq<usize> {
        self.shape@
    }

    pub closed spec fn spec_data(&self) -> Seq<T> {
        self.data@
    }

    /// Each stride is the product of the dimensions behind its own, the
    /// data holds exactly as many elements as the shape calls for, and
    /// every suffix product fits the address space.
    pub closed spec fn wf(&self) -> bool {
        &&& self.strides@.len() == self.shape@.len()
        &&& forall|i: int|
            0 <= i < self.shape@.len() ==> (#[trigger] self.strides@[i]) == suffix_product(
                self.shape@,
                i + 1,
            )
        &&& self.data@.len() == spec_size(self.shape@)
        &&& forall|i: int|
            0 <= i <= self.shape@.len() ==> #[trigger] suffix_product(self.shape@, i)
                <= usize::MAX
    }

    /// The dimension sizes.
    pub fn shape(&self) -> (r: &[usize])
        ensures
            r@ == self.spec_shape(),
    {
        self.shape.as_slice()
    }

    /// The number of dimensions.
    pub fn ndim(&self) -> (r: usize)
        ensures
            r == self.spec_shape().len(),
    {
        self.shape.len()
    }

    /// The flat row-major position of a multi-index; every coordinate
    /// must be within its dimension, which takes at least one dimension:
    /// a zero-dimensional array holds nothing to address.
    fn get_flat_index(&self, index: &[usize]) -> (r: usize)
        requires
            self.wf(),
            self.spec_shape().len() > 0,
            index@.len() == self.spec_shape().len(),
            forall|k: int|
                0 <= k < index@.len() ==> (#[trigger] index@[k]) < self.spec_shape()[k],
        ensures
            r == flat_from(index@, self.spec_shape(), 0),
            r < self.spec_data().len(),
    {
        let n: usize = self.shape.len();
        let mut sum: usize = 0;
        let mut j: usize = 0;
        proof {
            lemma_flat_in_bounds(index@, self.shape@, n as int);
        }
        while j < n
            invariant
                self.wf(),
                index@.len() == n,
                n == self.shape@.len(),
                forall|k: int| 0 <= k < n ==> (#[trigger] index@[k]) < self.shape@[k],
                j <= n,
                sum == flat_from(index@, self.shape@, n - j),
            decreases n - j,
        {
            let i: usize = n - 1 - j;
            proof {
                lemma_flat_in_bounds(index@, self.shape@, i as int);
                lemma_suffix_product_nonneg(self.shape@, i + 1);
                assert(0 <= index@[i as int] * suffix_product(self.shape@, i + 1))
                    by (nonlinear_arith)
                    requires
                        0 <= index@[i as int] as int,
                        0 <= suffix_product(self.shape@, i + 1),
                ;
            }
            sum = index[i] * self.strides[i] + sum;
            j = j + 1;
        }
        proof {
            lemma_flat_in_bounds(index@, self.shape@, 0);
        }
        sum
    }

    /// A borrow of the element at the given multi-index; the array must
    /// have at least one dimension.
    pub fn get(&self, index: &[usize]) -> (r: &T)
        requires
            self.wf(),
            self.spec_shape().len() > 0,
            index@.len() == self.spec_shape().len(),
            forall|k: int|
                0 <= k < index@.len() ==> (#[trigger] index@[k]) < self.spec_shape()[k],
        ensures
            *r == self.spec_data()[flat_from(index@, self.spec_shape(), 0)],
    {
        let flat: usize = self.get_flat_index(index);
        &self.data[flat]
    }
}

impl<T: Copy + Default> NDArray<T> {
    /// Allocates an array of the given shape, filled with default values;
    /// a shape with no dimensions allocates none. Every suffix product of
    /// the dimensions must fit the address space.
    pub fn new(shape: &[usize]) -> (r: Self)
        requires
            forall|i: int|
                0 <= i <= shape@.len() ==> #[trigger] suffix_product(shape@, i) <= usize::MAX,
        ensures
            r.wf(),
            r.spec_shape() == shape@,
            r.spec_data().len() == spec_size(shape@),
            forall|i: int|
                0 <= i < r.spec_data().len() ==> call_ensures(
                    T::default,
                    (),
                    #[trigger] r.spec_data()[i],
                ),
    {
        let n: usize = shape.len();
        let mut strides_rev: Vec<usize> = Vec::new();
        let mut acc: usize = 1;
        let mut j: usize = 0;
        while j < n
            invariant
                n == shape@.len(),
                forall|i: int|
                    0 <= i <= shape@.len() ==> #[trigger] suffix_product(shape@, i) <= usize::MAX,
                j <= n,
                acc == suffix_product(shape@, n - j),
                strides_rev@.len() == j,
                forall|k: int|
                    0 <= k < j ==> (#[trigger] strides_rev@[k]) == suffix_product(shape@, n - k),
            decreases n - j,
        {
            let i: usize = n - 1 - j;
            proof {
                lemma_suffix_product_nonneg(shape@, i + 1);
                assert(0 <= shape@[i as int] * suffix_product(shape@, i + 1)) by (nonlinear_arith)
                    requires
                        0 <= shape@[i as int] as int,
                        0 <= suffix_product(shape@, i + 1),
                ;
                assert(suffix_product(shape@, i as int) == shape@[i as int] * suffix_product(
                    shape@,
                    i + 1,
                ));
                assert(suffix_product(shape@, i as int) <= usize::MAX);
            }
            strides_rev.push(acc);
            acc = shape[i] * acc;
            j = j + 1;
        }
        let size: usize = if n == 0 {
            0
        } else {
            acc
        };
        let mut strides: Vec<usize> = Vec::new();
        let mut k: usize = 0;
        while k < n
            invariant
                n == shape@.len(),
                strides_rev@.len() == n,
                forall|m: int|
                    0 <= m < n ==> (#[trigger] strides_rev@[m]) == suffix_product(shape@, n - m),
                k <= n,
                strides@.len() == k,
                forall|m: int|
                    0 <= m < k ==> (#[trigger] strides@[m]) == suffix_product(shape@, m + 1),
        decreases n - k,
        {
            strides.push(strides_rev[n - 1 - k]);
            k = k + 1;
        }
        let fill: T = T::default();
        let mut data: Vec<T> = Vec::new();
        let mut d: usize = 0;
        while d < size
            invariant
                d <= size,
                data@.len() == d,
                call_ensures(T::default, (), fill),
                forall|m: int| 0 <= m < d ==> call_ensures(T::default, (), #[trigger] data@[m]),
            decreases size - d,
        {
            data.push(fill);
            d = d + 1;
        }
        let mut shape_vec: Vec<usize> = Vec::new();
        let mut s: usize = 0;
        while s < n
            invariant
                n == shape@.len(),
                s <= n,
                shape_vec@.len() == s,
                forall|m: int| 0 <= m < s ==> (#[trigger] shape_vec@[m]) == shape@[m],
            decreases n - s,
        {
            shape_vec.push(shape[s]);
            s = s + 1;
        }
        proof {
            assert(shape_vec@ =~= shape@);
        }
        NDArray { data, shape: shape_vec, strides }
    }
}

} // verus!
