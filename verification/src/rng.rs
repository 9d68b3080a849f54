//! Trusted boundary to the random number generator the animation engine
//! draws from. Nothing is assumed of the drawn values beyond their range.

use vstd::prelude::*;

use rand::Rng;

verus! {

/// Declares rand's SmallRng so the animation functions can carry one; the
/// generator's state is opaque here.
#[verifier::external_type_specification]
#[verifier::external_body]
pub struct ExSmallRng(rand::rngs::SmallRng);

/// Relies on rand's Rng::random_range over an inclusive byte range: it
/// panics only on an empty range and the sample always lies within the
/// range.
#[verifier::external_body]
pub(crate) fn rng_range_u8(rng: &mut rand::rngs::SmallRng, lo: u8, hi: u8) -> (r: u8)
    requires
        lo <= hi,
    ensures
        lo <= r <= hi,
{
    rng.random_range(lo..=hi)
}

/// Relies on rand's Rng::random_range over an inclusive u64 range: it
/// panics only on an empty range and the sample always lies within the
/// range.
#[verifier::external_body]
pub(crate) fn rng_range_u64(rng: &mut rand::rngs::SmallRng, lo: u64, hi: u64) -> (r: u64)
    requires
        lo <= hi,
    ensures
        lo <= r <= hi,
{
    rng.random_range(lo..=hi)
}

/// Relies on rand's Rng::random for u8: a draw never fails, and any byte may
/// come back.
#[verifier::external_body]
pub(crate) fn rng_next_u8(rng: &mut rand::rngs::SmallRng) -> u8 {
    rng.random()
}

} // verus!
