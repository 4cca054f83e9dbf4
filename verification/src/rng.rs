//! The random generator of the `rand` crate, as far as the machine uses it.
//!
//! Nothing here is proved: each function below hands its work to `rand`, and
//! its contract is what the verified code may rely on. None of them promises
//! anything about the numbers that come out; the one claim made is that a
//! seed fixes the generator built from it.

use vstd::prelude::*;
use rand::rngs::{OsRng, SmallRng};
use rand::{Rng, SeedableRng};

verus! {

/// `rand::rngs::SmallRng`: a small, fast generator. Its state is hidden from
/// the verifier, which only carries the value from call to call.
#[verifier::external_type_specification]
#[verifier::external_body]
pub struct ExSmallRng(rand::rngs::SmallRng);

/// The generator that `SmallRng::seed_from_u64` builds from `seed`.
///
/// `rand` computes the state of the generator from the seed alone, by
/// arithmetic that would take pages to write down here. The name says no
/// more than that: one seed, one generator. It says nothing of the bytes
/// that the generator then hands out.
pub uninterp spec fn generator_from_seed(seed: u64) -> SmallRng;

/// Calls `SmallRng::seed_from_u64`. The contract claims that the result is
/// a function of `seed` alone, which it is: `seed_from_u64` expands the seed
/// by fixed arithmetic and reads nothing else.
#[verifier::external_body]
pub(crate) fn seeded_generator(seed: u64) -> (rng: SmallRng)
    ensures
        rng == generator_from_seed(seed),
{
    SmallRng::seed_from_u64(seed)
}

/// Calls `SmallRng::from_rng` on `OsRng`: a generator seeded by the
/// operating system, or `None` where the system has no entropy to give.
#[verifier::external_body]
pub(crate) fn entropy_generator() -> (rng: Option<SmallRng>) {
    SmallRng::from_rng(OsRng).ok()
}

/// Calls `Rng::gen::<u8>`: the next byte of the generator, which advances.
/// Any byte may come out.
#[verifier::external_body]
pub(crate) fn next_byte(rng: &mut SmallRng) -> (byte: u8) {
    rng.gen::<u8>()
}

} // verus!
