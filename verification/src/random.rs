//! Trusted boundary to the random-number generator used for seeding.

use vstd::prelude::*;

verus! {

#[verifier::external_type_specification]
#[verifier::external_body]
pub struct ExThreadRng(rand::rngs::ThreadRng);

/// Relies on `rand::Rng::gen_ratio`: returns `true` with probability
/// `numerator / denominator`; its documentation guarantees the result is
/// always `false` for a zero numerator and always `true` when the numerator
/// equals the denominator, and that it panics only when the denominator is
/// zero or the numerator exceeds it.
#[verifier::external_body]
pub(crate) fn draw_with_ratio(
    rng: &mut rand::rngs::ThreadRng,
    numerator: u32,
    denominator: u32,
) -> (r: bool)
    requires
        0 < denominator,
        numerator <= denominator,
    ensures
        numerator == 0 ==> r == false,
        numerator == denominator ==> r == true,
{
    rand::Rng::gen_ratio(rng, numerator, denominator)
}

} // verus!
