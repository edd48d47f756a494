//! The one seam to the random number generator. Every random quantity the
//! game needs — asteroid drift directions, spin directions, recycle border
//! sides and re-entry coordinates — is drawn through `random_in_range` and
//! then shaped by verified code, so nothing but the draw itself is trusted.

use vstd::prelude::*;

verus! {

/// Relies on `rand::Rng::gen_range` on `rand::thread_rng()`: for a nonempty
/// inclusive range it returns a value inside the range (and panics only when
/// the range is empty, which the precondition rules out). Nothing more is
/// promised: the result depends on the thread's generator state.
#[verifier::external_body]
pub fn random_in_range(low: i64, high: i64) -> (r: i64)
    requires
        low <= high,
    ensures
        low <= r <= high,
{
    rand::Rng::gen_range(&mut rand::thread_rng(), low..=high)
}

} // verus!
