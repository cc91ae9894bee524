//! The library's one source of randomness: a uniform index draw.

use vstd::prelude::*;

verus! {

/// Relies on rand's `random_range`: a sample within the given range from
/// the thread-local generator, which panics only on an empty range.
#[verifier::external_body]
pub(crate) fn random_below(n: usize) -> (r: usize)
    requires
        n > 0,
    ensures
        r < n,
{
    rand::random_range(0..n)
}

} // verus!
