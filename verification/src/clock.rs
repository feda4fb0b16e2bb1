//! The wall clock, in milliseconds since the Unix epoch.

use vstd::prelude::*;

verus! {

/// `std::time::SystemTime`, a reading of the system clock: carried, never
/// looked into.
#[verifier::external_type_specification]
#[verifier::external_body]
pub struct ExSystemTime(std::time::SystemTime);

/// `std::time::SystemTime::now`: a reading of the system clock. Nothing is
/// claimed of the reading.
#[verifier::external_body]
fn system_time_now() -> std::time::SystemTime {
    std::time::SystemTime::now()
}

/// `std::time::SystemTime::duration_since`, measured from
/// `std::time::UNIX_EPOCH`: the time between the epoch and `t`, or nothing
/// where `t` lies before the epoch. Nothing is claimed of the result.
#[verifier::external_body]
fn since_unix_epoch(t: &std::time::SystemTime) -> Option<std::time::Duration> {
    t.duration_since(std::time::UNIX_EPOCH).ok()
}

/// `std::time::Duration::as_millis`: the whole milliseconds of `d`. Nothing
/// is claimed of the result.
#[verifier::external_body]
fn whole_millis(d: &std::time::Duration) -> u128 {
    d.as_millis()
}

/// The timestamp for a clock that stands `elapsed` milliseconds after the
/// epoch: the low 64 bits of the count, and 0 for a clock before the epoch.
pub open spec fn timestamp_of(elapsed: Option<u128>) -> u64 {
    match elapsed {
        Some(ms) => (ms % 0x1_0000_0000_0000_0000) as u64,
        None => 0,
    }
}

/// Computes `timestamp_of`.
pub fn millis_from(elapsed: Option<u128>) -> (ms: u64)
    ensures
        ms == timestamp_of(elapsed),
{
    match elapsed {
        Some(ms) => (ms % 0x1_0000_0000_0000_0000) as u64,
        None => 0,
    }
}

/// The current time in milliseconds since the Unix epoch; 0 where the system
/// clock stands before the epoch.
pub fn millis_now() -> u64 {
    let now = system_time_now();
    match since_unix_epoch(&now) {
        Some(d) => millis_from(Some(whole_millis(&d))),
        None => millis_from(None),
    }
}

} // verus!
