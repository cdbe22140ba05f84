//! Draws of randomness, taken from the `rand` crate behind trusted wrappers.
//! Nothing is assumed of a draw beyond its range; every rule that consumes a
//! draw is verified for all values the range admits.

use vstd::prelude::*;

verus! {

/// Relies on `rand::random::<bool>()`: one fair coin from the thread-local
/// generator.  Nothing can be promised of the outcome.
#[verifier::external_body]
pub(crate) fn coin_flip() -> bool {
    rand::random::<bool>()
}

/// Relies on `rand::random_range`: a uniform draw from `lo..hi`, which
/// panics only on an empty range, ruled out here.  Of the outcome only the
/// range is promised.
#[verifier::external_body]
pub(crate) fn pick_in_range(lo: i64, hi: i64) -> (r: i64)
    requires
        lo < hi,
    ensures
        lo <= r < hi,
{
    rand::random_range(lo..hi)
}

} // verus!
