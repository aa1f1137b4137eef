//! Random choices, taken from `rand`'s thread-local generator.

use rand::seq::SliceRandom;
use rand::Rng;
use vstd::prelude::*;

verus! {

/// `SliceRandom::shuffle` with `rand::thread_rng()`: the vector is put in a
/// random order; it keeps the same elements, each as often as before.
#[verifier::external_body]
pub(crate) fn shuffle_in_place(v: &mut Vec<usize>)
    ensures
        final(v)@.len() == old(v)@.len(),
        final(v)@.to_multiset() == old(v)@.to_multiset(),
{
    v.shuffle(&mut rand::thread_rng());
}

/// `Rng::gen_range(0..n)` with `rand::thread_rng()`: a random number below
/// `n` (the range must not be empty).
#[verifier::external_body]
pub(crate) fn random_below(n: usize) -> (r: usize)
    requires
        n > 0,
    ensures
        r < n,
{
    rand::thread_rng().gen_range(0..n)
}

/// `Rng::gen_ratio(1, 4)` with `rand::thread_rng()`: `true` with a chance
/// of one in four. Nothing is promised of a single outcome.
#[verifier::external_body]
pub(crate) fn one_in_four() -> bool {
    rand::thread_rng().gen_ratio(1, 4)
}

} // verus!
