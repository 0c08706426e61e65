//! The time of day, in the unit in which sessions are dated.

use vstd::prelude::*;

verus! {

/// Reads the clock with `std::time::SystemTime::now`, turns the reading into
/// a `chrono::DateTime<Utc>` with chrono's `From<SystemTime>`, and gives the
/// time as `DateTime::timestamp` does: in whole seconds since the Unix epoch,
/// negative for a clock that stands before it. The conversion takes a clock
/// on either side of the epoch; the years that chrono can hold reach far
/// beyond what a system clock shows. Nothing is claimed of the value.
#[verifier::external_body]
fn unix_timestamp() -> i64 {
    chrono::DateTime::<chrono::Utc>::from(std::time::SystemTime::now()).timestamp()
}

/// The seconds since the Unix epoch that `timestamp` stands for, or `None`
/// for a time before the epoch, which no session is dated with.
pub open spec fn seconds_of(timestamp: i64) -> Option<u64> {
    if timestamp >= 0 {
        Some(timestamp as u64)
    } else {
        None
    }
}

/// The seconds since the Unix epoch that `timestamp` stands for, or `None`
/// for a time before the epoch.
pub fn seconds_since_epoch(timestamp: i64) -> (r: Option<u64>)
    ensures
        r == seconds_of(timestamp),
{
    if timestamp >= 0 {
        Some(timestamp as u64)
    } else {
        None
    }
}

/// The time now: what the clock shows, in seconds since the Unix epoch, or
/// `None` where the clock stands before the epoch. Which time the clock shows
/// is not known beforehand; whatever it shows, the result is that reading
/// and so never lies beyond the last second that the clock can show.
pub fn now() -> (r: Option<u64>)
    ensures
        exists|timestamp: i64| r == #[trigger] seconds_of(timestamp),
        r matches Some(seconds) ==> seconds <= i64::MAX,
{
    let timestamp = unix_timestamp();
    let r = seconds_since_epoch(timestamp);
    assert(r == seconds_of(timestamp));
    r
}

} // verus!
