//! The rule behind the per-client rate limit.

use vstd::prelude::*;

verus! {

/// The number of calls per second that a limiter grants for a configured
/// maximum: the maximum itself, but never less than one call.
pub fn quota_per_second(max: u32) -> (quota: u32)
    ensures
        quota >= 1,
        quota == if max == 0 {
            1u32
        } else {
            max
        },
{
    if max == 0 {
        1
    } else {
        max
    }
}

} // verus!
