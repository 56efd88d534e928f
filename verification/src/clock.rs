//! The wall clock.
use vstd::prelude::*;
use std::time::{SystemTime, UNIX_EPOCH};

verus! {

/// `SystemTime::now` of std, as whole nanoseconds since the Unix epoch.
/// Nothing is claimed of the value: it is whatever the clock of the machine
/// says, zero where that clock stands before the epoch.
#[verifier::external_body]
fn nanos_since_epoch() -> (now: u128) {
    match SystemTime::now().duration_since(UNIX_EPOCH) {
        Ok(since) => since.as_nanos(),
        Err(_) => 0,
    }
}

/// The time of the clock in nanoseconds since the Unix epoch, `u64::MAX`
/// where the clock is past what a `u64` counts.
pub(crate) fn now_nanos() -> (now: u64) {
    nanos_as_u64(nanos_since_epoch())
}

/// A count of nanoseconds as a `u64` holds it: the count itself, or
/// `u64::MAX` where the count is larger.
pub open spec fn held_nanos(nanos: nat) -> nat {
    if nanos > u64::MAX {
        u64::MAX as nat
    } else {
        nanos
    }
}

/// Fits a reading of the clock into a `u64`.
pub fn nanos_as_u64(nanos: u128) -> (held: u64)
    ensures
        held == held_nanos(nanos as nat),
{
    if nanos > u64::MAX as u128 {
        u64::MAX
    } else {
        nanos as u64
    }
}

} // verus!
