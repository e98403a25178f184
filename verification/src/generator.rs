//! Construction of a xoshiro256+ generator from a 64-bit seed.
//!
//! The generator itself is `rand_xoshiro`'s. Its state is private to that
//! crate, so the contracts here speak of it through [`state_words`]: the four
//! 64-bit words that every later output is computed from. What seeding puts
//! into them is named by [`seeded_words`], a function of the seed alone.

use rand::SeedableRng;
use rand_xoshiro::Xoshiro256Plus;
use vstd::prelude::*;

verus! {

/// `rand_xoshiro`'s generator, carried through as an opaque value.
#[verifier::external_type_specification]
#[verifier::external_body]
pub struct ExXoshiro256Plus(Xoshiro256Plus);

/// The seed that [`naive`] builds its generator from.
pub const SEED: u64 = 123456789;

/// The 256 bits of state that a generator holds, as its 64-bit words in the
/// order in which `rand_xoshiro` keeps them.
pub uninterp spec fn state_words(rng: Xoshiro256Plus) -> Seq<u64>;

/// The state words that seeding from `seed` gives.
///
/// `rand_xoshiro` derives them from `seed` by a fixed computation, which reads
/// nothing but `seed`.
pub uninterp spec fn seeded_words(seed: u64) -> Seq<u64>;

/// A generator is freshly seeded from `seed` when it holds exactly the state
/// that seeding from `seed` gives.
pub open spec fn seeded_from(rng: Xoshiro256Plus, seed: u64) -> bool {
    state_words(rng) == seeded_words(seed)
}

/// Calls `<Xoshiro256Plus as SeedableRng>::seed_from_u64`.
///
/// Trusted: the generator that comes back holds four state words, and they
/// are the ones that `seed` alone determines. `rand_xoshiro` fills them from
/// a SplitMix64 stream started at `seed`; the call reads no clock, no
/// environment and no earlier generator, and it returns for every `seed`.
#[verifier::external_body]
fn seed_from_u64(seed: u64) -> (rng: Xoshiro256Plus)
    ensures
        state_words(rng) == seeded_words(seed),
        state_words(rng).len() == 4,
{
    Xoshiro256Plus::seed_from_u64(seed)
}

/// Builds a xoshiro256+ generator from `seed`.
///
/// Every `seed` is accepted. The generator returned is freshly seeded from
/// `seed` and holds 256 bits of state.
pub fn seeded_generator(seed: u64) -> (rng: Xoshiro256Plus)
    ensures
        seeded_from(rng, seed),
        state_words(rng).len() == 4,
{
    seed_from_u64(seed)
}

/// Builds the generator seeded from [`SEED`] and lets it go out of scope
/// unused.
///
/// Nothing is drawn from the generator and nothing is returned.
pub fn naive() {
    let seed: u64 = SEED;
    let _rng = seeded_generator(seed);
}

/// Seeding is reproducible: two generators freshly seeded from one seed hold
/// the same state words, whenever and wherever each was built.
pub proof fn lemma_same_seed_same_state(first: Xoshiro256Plus, second: Xoshiro256Plus, seed: u64)
    requires
        seeded_from(first, seed),
        seeded_from(second, seed),
    ensures
        state_words(first) == state_words(second),
{
}

/// Constructions do not interfere: of two generators, each freshly seeded
/// from a seed of its own, either holds the state that its own seed gives to
/// any generator, whatever the other was seeded from.
pub proof fn lemma_generators_independent(
    first: Xoshiro256Plus,
    second: Xoshiro256Plus,
    first_seed: u64,
    second_seed: u64,
)
    requires
        seeded_from(first, first_seed),
        seeded_from(second, second_seed),
    ensures
        forall|other: Xoshiro256Plus| #[trigger]
            seeded_from(other, first_seed) ==> state_words(other) == state_words(first),
        forall|other: Xoshiro256Plus| #[trigger]
            seeded_from(other, second_seed) ==> state_words(other) == state_words(second),
{
}

} // verus!
