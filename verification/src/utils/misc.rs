//! The pause between chapters.
use vstd::prelude::*;

verus! {

/// Calls `rand::rng()` and `Rng::random_range(low..high)` on it.
///
/// Trusted: the value lies in `low..high`, as the crate documents; which
/// value comes is left to chance and not stated.
#[verifier::external_body]
fn random_in_range(low: u64, high: u64) -> (r: u64)
    requires
        low < high,
    ensures
        low <= r < high,
{
    rand::Rng::random_range(&mut rand::rng(), low..high)
}

/// How many milliseconds to wait before the next chapter: a random
/// duration from 2 up to (not including) 5 seconds.
pub fn random_delay() -> (ms: u64)
    ensures
        2000 <= ms < 5000,
{
    random_in_range(2000, 5000)
}

} // verus!
