//! Random numbers, drawn from the `rand` crate.

use rand::Rng;
use vstd::prelude::*;

verus! {

/// Calls `rand::thread_rng()` and, on it, `Rng::gen::<usize>()`. Any `usize`
/// may come back, so nothing is claimed of the result. (Nor is it claimed
/// that the system can seed the generator: where it cannot, `rand` panics.)
#[verifier::external_body]
pub(crate) fn random_usize() -> (value: usize) {
    rand::thread_rng().gen::<usize>()
}

/// Calls `rand::thread_rng()` and, on it, `Rng::gen::<i32>()`. Any `i32` may
/// come back, so nothing is claimed of the result.
#[verifier::external_body]
pub(crate) fn random_i32() -> (value: i32) {
    rand::thread_rng().gen::<i32>()
}

/// Calls `rand::thread_rng()` and, on it, `Rng::gen_range(low..high)`, which
/// panics on an empty range and otherwise gives a value of the range: at
/// least `low` and less than `high`.
#[verifier::external_body]
pub(crate) fn random_in_range(low: i32, high: i32) -> (value: i32)
    requires
        low < high,
    ensures
        low <= value < high,
{
    rand::thread_rng().gen_range(low..high)
}

} // verus!
