//! The wall clock in Unix seconds.

use vstd::prelude::*;

verus! {

#[verifier::external_type_specification]
#[verifier::external_body]
pub struct ExSystemTime(std::time::SystemTime);

/// `std::time::SystemTime::now`. Nothing is claimed of the time read.
#[verifier::external_body]
fn system_now() -> std::time::SystemTime {
    std::time::SystemTime::now()
}

/// `SystemTime::duration_since(UNIX_EPOCH)`, in whole seconds (`None` for a time before
/// the epoch). Nothing is claimed of the value, which depends on the clock.
#[verifier::external_body]
fn secs_since_epoch(t: &std::time::SystemTime) -> Option<u64> {
    t.duration_since(std::time::UNIX_EPOCH).ok().map(|d| d.as_secs())
}

/// Seconds since the epoch as an `i64` (taken modulo 2^64 as `as` does), or 0 for a clock
/// set before the epoch.
pub open spec fn epoch_secs(elapsed: Option<u64>) -> i64 {
    match elapsed {
        Some(s) => s as i64,
        None => 0,
    }
}

/// See [`epoch_secs`].
pub fn epoch_secs_of(elapsed: Option<u64>) -> (r: i64)
    ensures
        r == epoch_secs(elapsed),
{
    match elapsed {
        Some(s) => s as i64,
        None => 0,
    }
}

/// The current Unix time in seconds, or 0 when the clock is set before the epoch.
pub fn now_secs() -> (r: i64)
    ensures
        exists|elapsed: Option<u64>| r == epoch_secs(elapsed),
{
    let t = system_now();
    let elapsed = secs_since_epoch(&t);
    epoch_secs_of(elapsed)
}

} // verus!
