//! Random draws, taken from the thread-local generator of the `rand` crate.

use vstd::prelude::*;

verus! {

/// Draws an integer with `rand::Rng::gen_range` on `rand::thread_rng()`, over
/// the inclusive range from `low` to `high`. The contract claims only that
/// the draw lies in that range; an empty range, on which `gen_range` panics,
/// is left out.
#[verifier::external_body]
pub(crate) fn random_in(low: i32, high: i32) -> (r: i32)
    requires
        low <= high,
    ensures
        low <= r <= high,
{
    rand::Rng::gen_range(&mut rand::thread_rng(), low..=high)
}

/// Draws a `bool` with `rand::random`. Nothing is claimed of the outcome.
#[verifier::external_body]
pub(crate) fn coin_flip() -> bool {
    rand::random::<bool>()
}

} // verus!
