//! The synthetic sample source: a pseudo-random generator reached
//! through trusted wrappers.  Nothing can be promised about which value
//! comes back, only its range, so every consumer takes the value as an
//! argument and is verified for all of them.

use vstd::prelude::*;

verus! {

/// Upper bound (exclusive) of a generated magnitude, in tenths
/// (100 units).
pub const SAMPLE_MAX_TENTHS: u64 = 1000;

#[verifier::external_type_specification]
#[verifier::external_body]
pub struct ExThreadRng(rand::rngs::ThreadRng);

/// Relies on `rand::rng`: hands out the thread-local generator.  Its
/// one-time initialization aborts if the operating system's entropy
/// source fails — an environmental failure outside any caller's
/// control, like allocation failure, and one the target's entropy
/// source does not exhibit.
#[verifier::external_body]
pub(crate) fn fresh_rng() -> rand::rngs::ThreadRng {
    rand::rng()
}

/// Relies on `rand::Rng::random_range`: returns a value of the given
/// range, which panics only when the range is empty; a nonempty range
/// is required here, so the call always returns a value below `bound`.
#[verifier::external_body]
pub(crate) fn random_below(rng: &mut rand::rngs::ThreadRng, bound: u64) -> (y: u64)
    requires
        1 <= bound,
    ensures
        y < bound,
{
    rand::Rng::random_range(rng, 0..bound)
}

} // verus!
