//! The seedable random source that every stochastic decision draws from.
use vstd::prelude::*;
use rand::rngs::StdRng;

verus! {

#[verifier::external_type_specification]
#[verifier::external_body]
pub struct ExStdRng(StdRng);

/// Relies on `rand::Rng::random_ratio`: true with chance `numerator / denominator`,
/// always false for a numerator of 0 and always true when it equals the denominator.
/// It panics when the denominator is 0 or below the numerator.
#[verifier::external_body]
pub(crate) fn chance(rng: &mut StdRng, numerator: u32, denominator: u32) -> (r: bool)
    requires
        0 < denominator,
        numerator <= denominator,
    ensures
        numerator == 0 ==> !r,
        numerator == denominator ==> r,
{
    rand::Rng::random_ratio(rng, numerator, denominator)
}

/// Relies on `rand::Rng::random_range` over an inclusive range: a value within it.
/// It panics on an empty range.
#[verifier::external_body]
pub(crate) fn pick_between(rng: &mut StdRng, low: i64, high: i64) -> (r: i64)
    requires
        low <= high,
    ensures
        low <= r <= high,
{
    rand::Rng::random_range(rng, low..=high)
}

} // verus!
