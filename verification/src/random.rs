//! Random draws from the `rand` crate, with what holds of every outcome.

use vstd::prelude::*;
use rand::rngs::{StdRng, ThreadRng};
use rand::seq::SliceRandom;
use rand::{RngExt, SeedableRng};

verus! {

#[verifier::external_type_specification]
#[verifier::external_body]
pub struct ExStdRng(rand::rngs::StdRng);

#[verifier::external_type_specification]
#[verifier::external_body]
pub struct ExThreadRng(rand::rngs::ThreadRng);

/// The thread-local generator (`rand::rng`).
///
/// Trusted: nothing is claimed of the generator's state.
#[verifier::external_body]
pub(crate) fn thread_rng() -> ThreadRng {
    rand::rng()
}

/// An index drawn from `0..len` (`RngExt::random_range` on a `StdRng`).
///
/// Trusted: `random_range` returns a value inside the half-open range it is
/// given and panics only on an empty range, which `requires` excludes. Which
/// index comes out is left open.
#[verifier::external_body]
pub(crate) fn std_rng_index(rng: &mut StdRng, len: usize) -> (r: usize)
    requires
        len > 0,
    ensures
        r < len,
{
    rng.random_range(0..len)
}

/// A value drawn from `lo..hi` (`RngExt::random_range` on a `ThreadRng`).
///
/// Trusted: `random_range` returns a value inside the half-open range it is
/// given and panics only on an empty range, which `requires` excludes. Which
/// value comes out is left open.
#[verifier::external_body]
pub(crate) fn thread_rng_u64_in(rng: &mut ThreadRng, lo: u64, hi: u64) -> (r: u64)
    requires
        lo < hi,
    ensures
        lo <= r < hi,
{
    rng.random_range(lo..hi)
}

} // verus!

verus! {

/// Shuffles `v` in place (`SliceRandom::shuffle` on a `ThreadRng`).
///
/// Trusted: `shuffle` only rearranges the items of the slice; the order
/// that comes out is left open.
#[verifier::external_body]
pub(crate) fn shuffle_vec<T>(v: &mut Vec<T>, rng: &mut ThreadRng)
    ensures
        final(v)@.to_multiset() == old(v)@.to_multiset(),
{
    v.as_mut_slice().shuffle(rng);
}

} // verus!

verus! {

/// A hasher builder with fresh random keys (`RandomState::new`).
///
/// Trusted: nothing is claimed of the keys.
#[verifier::external_body]
pub(crate) fn new_random_state() -> std::collections::hash_map::RandomState {
    std::collections::hash_map::RandomState::new()
}

} // verus!

verus! {

/// The indices that a `StdRng` seeded with `seed` draws, one from
/// `0..lens[i]` for each `i` in turn (`random_range`). A seeded `StdRng`
/// makes the same draws for the same seed.
pub uninterp spec fn seeded_picks(seed: u64, lens: Seq<usize>) -> Seq<usize>;

/// Draws, from a `StdRng` seeded with `seed`
/// (`SeedableRng::seed_from_u64`), one index from `0..lens[i]` for each `i`
/// in turn (`RngExt::random_range`).
///
/// Trusted: the draws are a function of the seed and the ranges, and each
/// lies in its range; `random_range` panics only on an empty range, which
/// `requires` excludes.
#[verifier::external_body]
pub(crate) fn seeded_index_picks(seed: u64, lens: &[usize]) -> (r: Vec<usize>)
    requires
        forall|i: int| 0 <= i < lens@.len() ==> lens@[i] > 0,
    ensures
        r@ == seeded_picks(seed, lens@),
        r@.len() == lens@.len(),
        forall|i: int| 0 <= i < r@.len() ==> #[trigger] r@[i] < lens@[i],
{
    let mut rng = StdRng::seed_from_u64(seed);
    lens.iter().map(|&len| rng.random_range(0..len)).collect()
}

} // verus!
