//! Trusted boundary to the `rand` crate: the engine's only source of
//! randomness.

use vstd::prelude::*;
use rand::Rng;

verus! {

/// Relies on `rand::Rng::gen_range` over the half-open range `lo..hi`: the
/// result always lies in that range. It panics on an empty range, which the
/// precondition rules out. Nothing is assumed about which value comes back:
/// callers must be correct for every value in the range.
#[verifier::external_body]
pub(crate) fn gen_range_u64(lo: u64, hi: u64) -> (r: u64)
    requires
        lo < hi,
    ensures
        lo <= r < hi,
{
    rand::thread_rng().gen_range(lo..hi)
}

} // verus!
