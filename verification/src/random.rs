use vstd::prelude::*;

verus! {

/// fastrand's pseudo-random generator, declared so that the library can
/// own one and thread it through fruit placement. Its state is opaque
/// to the verifier.
#[verifier::external_type_specification]
#[verifier::external_body]
pub struct ExRng(fastrand::Rng);

/// Relies on fastrand::Rng::with_seed: builds the generator whose
/// deterministic sequence is fixed by `seed`. Nothing is assumed of the
/// sequence itself.
#[verifier::external_body]
pub(crate) fn seeded_rng(seed: u64) -> (rng: fastrand::Rng) {
    fastrand::Rng::with_seed(seed)
}

/// Relies on fastrand::Rng::i32 over the range `0..bound`: for a
/// non-empty range it returns a member of that range, so the result
/// lies in `[0, bound)`. Which member comes back is not assumed.
#[verifier::external_body]
pub(crate) fn random_below(rng: &mut fastrand::Rng, bound: i32) -> (r: i32)
    requires
        0 < bound,
    ensures
        0 <= r < bound,
{
    rng.i32(0..bound)
}

} // verus!
