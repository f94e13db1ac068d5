//! The random source, and the draws the engine makes from it.
//!
//! The source is a seedable generator of the `rand` crate. Nothing here is
//! proved of the generator: each function below states what `rand` documents
//! of one of its calls, and the rest of the crate is verified against that.

use rand::rngs::StdRng;
use rand::Rng;
use vstd::prelude::*;

verus! {

/// The generator of `rand` that the engine draws from. Its state is of no
/// concern to the engine, which only hands it on.
#[verifier::external_type_specification]
#[verifier::external_body]
pub struct ExStdRng(rand::rngs::StdRng);

/// Draws a whole number between `low` and `high`, both included, by
/// `Rng::gen_range` on the range `low..=high`.
///
/// Believed of `rand`: the call panics only on an empty range, and the number
/// it returns lies in the range.
#[verifier::external_body]
pub(crate) fn uniform_inclusive(rng: &mut StdRng, low: u64, high: u64) -> (value: u64)
    requires
        low <= high,
    ensures
        low <= value <= high,
{
    rng.gen_range(low..=high)
}

/// Decides a trial that succeeds `numerator` times in `denominator`, by
/// `Rng::gen_ratio`.
///
/// Believed of `rand`: the call panics only where the denominator is zero or
/// below the numerator; a trial with numerator zero never succeeds, and one
/// whose numerator equals its denominator always does.
#[verifier::external_body]
pub(crate) fn bernoulli(rng: &mut StdRng, numerator: u32, denominator: u32) -> (hit: bool)
    requires
        0 < denominator,
        numerator <= denominator,
    ensures
        numerator == 0 ==> !hit,
        numerator == denominator ==> hit,
{
    rng.gen_ratio(numerator, denominator)
}

} // verus!
