//! The only gateway to the `rand` crate: a seeded standard generator and
//! the two kinds of draw that generation makes from it.

use vstd::prelude::*;
use rand::Rng;
use rand::SeedableRng;

verus! {

/// `rand::rngs::StdRng` carried opaquely: a deterministic generator whose
/// whole state comes from the seed it was built with.
#[verifier::external_type_specification]
#[verifier::external_body]
pub struct ExStdRng(rand::rngs::StdRng);

/// The first 32-bit value drawn from a standard generator freshly seeded
/// with `seed`. `StdRng::seed_from_u64` expands the seed by a fixed,
/// platform-independent algorithm and the generator is deterministic, so
/// this is a function of `seed` alone.
pub uninterp spec fn seeded_draw_of(seed: u64) -> u32;

/// Relies on `rand::rngs::StdRng::seed_from_u64` followed by
/// `rand::Rng::gen::<u32>`: seeding is deterministic and the generator's
/// first draw depends on the seed alone, so equal seeds always yield the
/// same value.
#[verifier::external_body]
pub fn seeded_draw(seed: u64) -> (r: u32)
    ensures
        r == seeded_draw_of(seed),
{
    let mut rng = rand::rngs::StdRng::seed_from_u64(seed);
    rng.gen::<u32>()
}

/// Relies on `rand::rngs::StdRng::seed_from_u64`: builds the generator
/// whose draws a caller consumes one by one. Nothing is promised of the
/// state itself.
#[verifier::external_body]
pub fn rng_from_seed(seed: u64) -> rand::rngs::StdRng {
    rand::rngs::StdRng::seed_from_u64(seed)
}

/// Relies on `rand::Rng::gen_range`: for a non-empty range `0..n` the
/// sample lies within it. Which value comes back depends on the
/// generator's state, so no more is stated.
#[verifier::external_body]
pub fn rng_below(rng: &mut rand::rngs::StdRng, n: u32) -> (r: u32)
    requires
        n > 0,
    ensures
        r < n,
{
    rng.gen_range(0..n)
}

} // verus!
