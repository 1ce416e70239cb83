//! Trusted boundary to the random number generator used by food placement.

use rand::Rng;
use vstd::prelude::*;

verus! {

/// Relies on rand::Rng::gen_range on rand::thread_rng: for a non-empty
/// half-open range `lo..hi` it returns a value inside that range.  It panics
/// only on an empty range, which the precondition excludes.  Nothing more is
/// claimed: two calls on the same range may differ.
#[verifier::external_body]
pub(crate) fn random_in_range(lo: i32, hi: i32) -> (r: i32)
    requires
        lo < hi,
    ensures
        lo <= r < hi,
{
    rand::thread_rng().gen_range(lo..hi)
}

} // verus!
