//! The seeded random generator of the simulation and the two calls into it.

use rand::{Rng, SeedableRng};
use rand_xoshiro::SplitMix64;
use vstd::prelude::*;

verus! {

/// The generator type of `rand_xoshiro`, carried opaquely by the universe.
#[verifier::external_type_specification]
#[verifier::external_body]
pub struct ExSplitMix64(SplitMix64);

/// The generator that `SplitMix64::seed_from_u64` makes from `seed`.
pub uninterp spec fn seeded(seed: u64) -> SplitMix64;

/// Calls `SeedableRng::seed_from_u64` for `SplitMix64`, which stores the
/// seed's bytes as the generator's state: the generator it makes depends on
/// the seed alone (see `seeded`). What that state is, the library never
/// reads.
#[verifier::external_body]
pub(crate) fn seeded_generator(seed: u64) -> (g: SplitMix64)
    ensures
        g == seeded(seed),
{
    SplitMix64::seed_from_u64(seed)
}

/// Calls `Rng::gen_range(0..n)` on the generator. `rand` documents that the
/// result lies in the half-open range and that an empty range panics, so
/// `n` must be positive. Which value in the range comes back depends on the
/// generator's state and is left unstated; so is the state afterwards.
#[verifier::external_body]
pub(crate) fn gen_below(rng: &mut SplitMix64, n: i32) -> (r: i32)
    requires
        n > 0,
    ensures
        0 <= r < n,
{
    rng.gen_range(0..n)
}

} // verus!
