//! Day buckets and hours of the day, read off a Unix timestamp in UTC.

use vstd::prelude::*;

verus! {

/// Seconds in one day bucket.
pub const SECONDS_PER_DAY: i64 = 86400;

/// Seconds in one hour.
pub const SECONDS_PER_HOUR: i64 = 3600;

/// The day bucket of a timestamp: the quotient by 86400, rounded toward zero.
///
/// For the timestamps of the domain, which are never negative, this is the
/// floor of `timestamp / 86400`.
pub open spec fn day_index(timestamp: int) -> int {
    if timestamp >= 0 {
        timestamp / 86400
    } else {
        -((-timestamp) / 86400)
    }
}

/// The UTC hour of the day, `0..=23`, of a timestamp that is not negative.
pub open spec fn hour_of_day(timestamp: int) -> int
    recommends
        timestamp >= 0,
{
    (timestamp % 86400) / 3600
}

/// Whether a timestamp has an hour of the day at all: the clock of this
/// library starts at the epoch, and an instant before it belongs to no hour.
pub open spec fn has_hour(timestamp: int) -> bool {
    timestamp >= 0
}

/// The day bucket of `timestamp`.
pub fn day_of(timestamp: i64) -> (day: i64)
    ensures
        day == day_index(timestamp as int),
{
    timestamp / SECONDS_PER_DAY
}

/// The UTC hour of the day of `timestamp`, or `None` for an instant before
/// the epoch.
pub fn hour_of(timestamp: i64) -> (hour: Option<u8>)
    ensures
        hour == if has_hour(timestamp as int) {
            Some(hour_of_day(timestamp as int) as u8)
        } else {
            None::<u8>
        },
        hour matches Some(h) ==> h < 24,
{
    if timestamp < 0 {
        None
    } else {
        let seconds_in_day: i64 = timestamp % SECONDS_PER_DAY;
        let hour: i64 = seconds_in_day / SECONDS_PER_HOUR;
        Some(hour as u8)
    }
}

/// A timestamp written as `day * 86400 + hour * 3600 + rest` falls in day
/// bucket `day` at hour `hour`.
pub proof fn lemma_day_and_hour_of_parts(day: int, hour: int, rest: int)
    requires
        0 <= day,
        0 <= hour < 24,
        0 <= rest < 3600,
    ensures
        day_index(day * 86400 + hour * 3600 + rest) == day,
        hour_of_day(day * 86400 + hour * 3600 + rest) == hour,
{
}

/// Day buckets never decrease as the clock moves forward.
pub proof fn lemma_day_index_monotonic(earlier: int, later: int)
    requires
        earlier <= later,
    ensures
        day_index(earlier) <= day_index(later),
{
}

} // verus!
