//! Wall-clock time in whole seconds, and the expiry arithmetic built on it.

use vstd::prelude::*;

verus! {

/// Lifetime of a freshly issued session, in seconds.
pub const SESSION_LIFETIME_SECS: u64 = 3600;

/// `std::time::SystemTime`, carried as it comes and never looked into.
#[verifier::external_type_specification]
#[verifier::external_body]
pub struct ExSystemTime(std::time::SystemTime);

/// `std::time::SystemTime::now`: the current instant. Nothing is claimed of
/// it.
#[verifier::external_body]
fn system_now() -> (t: std::time::SystemTime) {
    std::time::SystemTime::now()
}

/// `std::time::SystemTime::duration_since`, measured from the Unix epoch;
/// `None` where the instant lies before the epoch. Nothing is claimed of the
/// span.
#[verifier::external_body]
fn since_epoch(t: &std::time::SystemTime) -> (d: Option<std::time::Duration>) {
    t.duration_since(std::time::UNIX_EPOCH).ok()
}

/// `std::time::Duration::as_secs`: the whole seconds of a span. Nothing is
/// claimed of the number.
#[verifier::external_body]
fn whole_seconds(d: &std::time::Duration) -> (s: u64) {
    d.as_secs()
}

/// Seconds since the Unix epoch, or `None` where the clock reads earlier
/// than the epoch.
pub fn unix_time_now() -> (r: Option<u64>) {
    let t = system_now();
    match since_epoch(&t) {
        Some(d) => Some(whole_seconds(&d)),
        None => None,
    }
}

/// The instant that a clock reading stands for: a clock that reads earlier
/// than the epoch counts as the end of time, when every session has
/// expired and none can be issued.
pub fn instant_of(reading: Option<u64>) -> (now: u64)
    ensures
        now == match reading {
            Some(t) => t,
            None => u64::MAX,
        },
{
    match reading {
        Some(t) => t,
        None => u64::MAX,
    }
}

/// The expiry instant of a session issued at `now`.
pub open spec fn expiry_of(now: u64) -> Option<u64> {
    if now + SESSION_LIFETIME_SECS <= u64::MAX {
        Some((now + SESSION_LIFETIME_SECS) as u64)
    } else {
        None
    }
}

/// The expiry instant of a session issued at `now`, or `None` where that
/// instant does not fit in 64 bits.
pub fn expiry_after(now: u64) -> (r: Option<u64>)
    ensures
        r == expiry_of(now),
{
    if now <= u64::MAX - SESSION_LIFETIME_SECS {
        Some(now + SESSION_LIFETIME_SECS)
    } else {
        None
    }
}

/// The expiry instant of a session issued at this moment. `None` where the
/// clock cannot be read as a time since the epoch or the sum leaves 64 bits;
/// otherwise the expiry of some instant.
pub fn one_hour_from_now() -> (r: Option<u64>)
    ensures
        r matches Some(t) ==> exists|now: u64| #[trigger] expiry_of(now) == Some(t),
{
    match unix_time_now() {
        Some(now) => expiry_after(now),
        None => None,
    }
}

} // verus!
