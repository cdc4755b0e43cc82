//! The random number source the generators draw from.

use rand::Rng;
use vstd::prelude::*;

verus! {

#[verifier::external_type_specification]
#[verifier::external_body]
pub struct ExStdRng(rand::rngs::StdRng);

/// Relies on `rand::Rng::random_range` over `0..count`: a draw from the
/// uniform distribution on `[0, count)`. The range is non-empty, so the call
/// cannot panic; nothing more can be promised of a random value than its
/// bound.
#[verifier::external_body]
pub(crate) fn rng_below(rng: &mut rand::rngs::StdRng, count: u64) -> (r: u64)
    requires
        count >= 1,
    ensures
        r < count,
{
    rng.random_range(0..count)
}

} // verus!
