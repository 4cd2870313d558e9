//! Readings of the outside world (the clock, fresh identifiers) and calendar
//! arithmetic on timestamps.
//!
//! A timestamp is a count of milliseconds since 1970-01-01T00:00:00 UTC,
//! negative before it.

use vstd::prelude::*;

verus! {

/// Milliseconds in an hour.
pub const MILLIS_PER_HOUR: i64 = 3_600_000;

/// Milliseconds in a day.
pub const MILLIS_PER_DAY: i64 = 86_400_000;

/// `chrono::Utc::now`, as a timestamp in milliseconds. Trusted; nothing is
/// claimed of the reading. The call panics if the system clock is set before
/// 1970.
#[verifier::external_body]
pub(crate) fn now_millis() -> i64 {
    chrono::Utc::now().timestamp_millis()
}

/// `uuid::Uuid::new_v4`, as its 128-bit value. Trusted; nothing is claimed of
/// the identifier, not even that it differs from earlier ones.
#[verifier::external_body]
pub(crate) fn fresh_id() -> u128 {
    uuid::Uuid::new_v4().as_u128()
}

/// Milliseconds elapsed since the last midnight UTC.
pub open spec fn millis_of_day(ts: int) -> int {
    ts % (MILLIS_PER_DAY as int)
}

/// Hour of the day in UTC, `0..=23`.
pub open spec fn hour_of_day_spec(ts: int) -> int {
    millis_of_day(ts) / (MILLIS_PER_HOUR as int)
}

/// Days since 1970-01-01, negative before it.
pub open spec fn day_number(ts: int) -> int {
    ts / (MILLIS_PER_DAY as int)
}

/// Day of the week in UTC, Monday = 1 through Sunday = 7.
/// Day zero, 1970-01-01, was a Thursday.
pub open spec fn day_of_week_spec(ts: int) -> int {
    (day_number(ts) + 3) % 7 + 1
}

/// Milliseconds elapsed since the last midnight UTC.
pub fn time_of_day_millis(ts: i64) -> (r: i64)
    ensures
        r == millis_of_day(ts as int),
        0 <= r < MILLIS_PER_DAY,
{
    if ts >= 0 {
        ts % MILLIS_PER_DAY
    } else {
        let back: i64 = (-(ts + 1)) % MILLIS_PER_DAY;
        MILLIS_PER_DAY - 1 - back
    }
}

/// Hour of the day in UTC.
pub fn hour_of_day(ts: i64) -> (r: u32)
    ensures
        r == hour_of_day_spec(ts as int),
        r < 24,
{
    (time_of_day_millis(ts) / MILLIS_PER_HOUR) as u32
}

/// Day of the week in UTC, Monday = 1 through Sunday = 7.
pub fn day_of_week(ts: i64) -> (r: u32)
    ensures
        r == day_of_week_spec(ts as int),
        1 <= r <= 7,
{
    let days: i64 = if ts >= 0 {
        ts / MILLIS_PER_DAY
    } else {
        -((-(ts + 1)) / MILLIS_PER_DAY) - 1
    };
    let shifted: i64 = days + 3;
    let index: i64 = if shifted >= 0 {
        shifted % 7
    } else {
        6 - ((-(shifted + 1)) % 7)
    };
    (index + 1) as u32
}

/// Milliseconds from `start` to `end`, zero if `end` is not after `start`.
pub open spec fn elapsed_spec(start: int, end: int) -> int {
    if end > start {
        end - start
    } else {
        0
    }
}

/// Milliseconds from `start` to `end`, zero if `end` is not after `start`.
pub fn elapsed_millis(start: i64, end: i64) -> (r: u64)
    ensures
        r == elapsed_spec(start as int, end as int),
{
    if end > start {
        let wide: i128 = (end as i128) - (start as i128);
        wide as u64
    } else {
        0
    }
}

} // verus!
