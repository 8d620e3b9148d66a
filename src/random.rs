use vstd::prelude::*;

use rand::seq::SliceRandom;

verus! {

/// Relies on rand's `SliceRandom::shuffle` (with `thread_rng`): it only swaps
/// elements, so the result is a rearrangement of the input.
#[verifier::external_body]
pub(crate) fn shuffle_chars(v: &mut Vec<char>)
    ensures
        final(v)@.to_multiset() == old(v)@.to_multiset(),
{
    v.as_mut_slice().shuffle(&mut rand::thread_rng())
}

/// Relies on rand's `SliceRandom::choose` (with `thread_rng`): on a non-empty
/// slice it returns one of its elements.
#[verifier::external_body]
pub(crate) fn choose_one<T>(items: &[T]) -> (r: &T)
    requires
        items@.len() > 0,
    ensures
        items@.contains(*r),
{
    items.choose(&mut rand::thread_rng()).unwrap()
}

/// rand's `random`: a value drawn from the standard distribution of `T`;
/// nothing is promised of which one.
pub assume_specification<T>[ rand::random::<T> ]() -> (r: T)
    where
        rand::distributions::Standard: rand::distributions::Distribution<T>,
;

} // verus!
