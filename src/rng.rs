//! Random choices, drawn from the thread-local generator of `rand`.
use vstd::prelude::*;

verus! {

/// Relies on `rand::Rng::random_range` over `0..n` with `rand::rng()`: the value
/// lies in the range, and the call panics only on an empty range.
#[verifier::external_body]
pub(crate) fn random_index(n: usize) -> (r: usize)
    requires
        n > 0,
    ensures
        r < n,
{
    rand::Rng::random_range(&mut rand::rng(), 0..n)
}

/// Relies on `rand::seq::SliceRandom::shuffle` with `rand::rng()`: the slice is
/// permuted in place.
#[verifier::external_body]
pub(crate) fn shuffle_indices(v: &mut Vec<usize>)
    ensures
        final(v)@.len() == old(v)@.len(),
        final(v)@.to_multiset() == old(v)@.to_multiset(),
{
    rand::seq::SliceRandom::shuffle(v.as_mut_slice(), &mut rand::rng())
}

} // verus!
