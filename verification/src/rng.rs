//! The engine's single source of randomness.

use rand::Rng;
use vstd::prelude::*;

verus! {

/// Relies on `rand::thread_rng` and `rand::Rng::gen_range`: a sample over the
/// inclusive range `lo..=hi` lies in that range, and the call panics only when
/// the range is empty, which the precondition rules out.
#[verifier::external_body]
pub fn roll_between(lo: u16, hi: u16) -> (r: u16)
    requires
        lo <= hi,
    ensures
        lo <= r <= hi,
{
    rand::thread_rng().gen_range(lo..=hi)
}

} // verus!
