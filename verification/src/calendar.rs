//! The clock and the calendar, which the `chrono` crate keeps.
//!
//! An instant is a whole number of seconds since the Unix epoch; a day is
//! `chrono`'s count of days in the proleptic Gregorian calendar, January 1
//! of the year 1 being day 1. What only the crate can tell (the time, the
//! date of an instant, the day that a text names) is asked of it here;
//! the arithmetic between instants and days is done and proved in place.

use chrono::Datelike;
use vstd::prelude::*;

verus! {

pub const SECONDS_PER_DAY: i64 = 86400;

/// The day number of January 1, 1970, on which the Unix epoch begins.
pub const UNIX_EPOCH_DAY: i32 = 719163;

/// An upper bound on the clock's reading: `current_timestamp` never gives
/// an instant at or beyond it.
pub const CLOCK_LIMIT: i64 = 0x1_0000_0000_0000;

/// The calendar date, written `YYYY-MM-DD`, on which an instant falls in
/// UTC; none for an instant beyond the calendar's range.
pub uninterp spec fn calendar_date(timestamp: int) -> Option<Seq<char>>;

/// The day that a text of the form `YYYY-MM-DD` names; none for a text that
/// names no day of the calendar.
pub uninterp spec fn parsed_date(text: Seq<char>) -> Option<int>;

/// The instant that a text in the form of RFC 3339 names, such as
/// `2025-01-15T12:00:00+00:00`, fractions of a second dropped; none for a
/// text of another form.
pub uninterp spec fn rfc3339_instant(text: Seq<char>) -> Option<int>;

/// The instant that a text names in UTC when read by `format`, a format of
/// date and time of day without a time zone, such as `%Y-%m-%d %H:%M:%S`;
/// none for a text that the format does not fit.
pub uninterp spec fn naive_instant(text: Seq<char>, format: Seq<char>) -> Option<int>;

/// What an optional text holds.
pub open spec fn characters(text: Option<String>) -> Option<Seq<char>> {
    match text {
        Some(written) => Some(written@),
        None => None,
    }
}

/// The day on which an instant falls in UTC.
pub open spec fn day_of(timestamp: int) -> int {
    timestamp / (SECONDS_PER_DAY as int) + UNIX_EPOCH_DAY
}

/// The second of its day at which an instant falls in UTC.
pub open spec fn second_of_day(timestamp: int) -> int {
    timestamp % (SECONDS_PER_DAY as int)
}

/// The instant at the given second of the given day.
pub open spec fn instant_at(day: int, second: int) -> int {
    (day - UNIX_EPOCH_DAY) * SECONDS_PER_DAY + second
}

/// An instant is the second of its day on its day.
pub proof fn lemma_instant_of_its_day(timestamp: int)
    ensures
        instant_at(day_of(timestamp), second_of_day(timestamp)) == timestamp,
        0 <= second_of_day(timestamp) < SECONDS_PER_DAY,
{
}

/// The full days since the epoch at an instant, and the second of its day.
fn days_and_second(timestamp: i64) -> (parts: (i64, i64))
    ensures
        parts.0 == timestamp as int / 86400,
        parts.1 == timestamp as int % 86400,
        0 <= parts.1 < 86400,
{
    if timestamp >= 0 {
        (timestamp / 86400, timestamp % 86400)
    } else {
        let behind: i64 = -(timestamp + 1);
        let days: i64 = -(behind / 86400) - 1;
        let second: i64 = 86399 - behind % 86400;
        (days, second)
    }
}

/// The day on which `timestamp` falls, where an `i32` can count it.
pub fn day_number(timestamp: i64) -> (day: Option<i32>)
    ensures
        day is Some <==> i32::MIN <= day_of(timestamp as int) <= i32::MAX,
        day matches Some(d) ==> d == day_of(timestamp as int),
{
    let day: i64 = days_and_second(timestamp).0 + UNIX_EPOCH_DAY as i64;
    if day < i32::MIN as i64 || day > i32::MAX as i64 {
        None
    } else {
        Some(day as i32)
    }
}

/// The instant on the day `day` at the time of day of the instant `now`.
pub fn at_time_of(day: i32, now: i64) -> (instant: i64)
    ensures
        instant == instant_at(day as int, second_of_day(now as int)),
        day_of(instant as int) == day,
        second_of_day(instant as int) == second_of_day(now as int),
{
    let second: i64 = days_and_second(now).1;
    (day as i64 - UNIX_EPOCH_DAY as i64) * SECONDS_PER_DAY + second
}

/// Reads `chrono::Utc::now` and gives its `DateTime::timestamp`, the whole
/// seconds since the Unix epoch. `now` takes the seconds from the system
/// clock's distance to the epoch, which is not negative (it panics on a
/// clock set before 1970), and `timestamp` computes them back from a day
/// count that is an `i32` and a second of the day, so they stay below
/// `CLOCK_LIMIT`. Which instant is read is left open.
#[verifier::external_body]
pub(crate) fn current_timestamp() -> (now: i64)
    ensures
        0 <= now < CLOCK_LIMIT,
{
    chrono::Utc::now().timestamp()
}

/// `chrono::DateTime::from_timestamp` at the whole second `timestamp`, and
/// of the instant it yields `DateTime::format` with `%Y-%m-%d`, written out.
/// The first answers `None` for an instant outside the crate's calendar and
/// does not panic; the second writes the UTC date of the instant. The answer
/// depends on `timestamp` alone, and is given the name `calendar_date`.
#[verifier::external_body]
pub(crate) fn date_text(timestamp: i64) -> (date: Option<String>)
    ensures
        characters(date) == calendar_date(timestamp as int),
{
    match chrono::DateTime::from_timestamp(timestamp, 0) {
        Some(instant) => Some(instant.format("%Y-%m-%d").to_string()),
        None => None,
    }
}

/// `chrono::NaiveDate::parse_from_str` with the format `%Y-%m-%d`, and of
/// the date it yields `Datelike::num_days_from_ce`. The first answers an
/// error, which is dropped here, for a text that is no date of the
/// calendar; the second counts the date's days. The answer depends on the
/// text alone, and is given the name `parsed_date`.
#[verifier::external_body]
pub(crate) fn parse_date(text: &str) -> (day: Option<i32>)
    ensures
        day matches Some(d) ==> parsed_date(text@) == Some(d as int),
        day is None ==> parsed_date(text@) is None,
{
    match chrono::NaiveDate::parse_from_str(text, "%Y-%m-%d") {
        Ok(date) => Some(date.num_days_from_ce()),
        Err(_) => None,
    }
}

/// `chrono::DateTime::parse_from_rfc3339`, and of the instant it yields
/// `DateTime::timestamp`. The first answers an error, which is dropped
/// here, for a text that is not in the form of RFC 3339; the second gives
/// the instant's whole seconds since the epoch. The answer depends on the
/// text alone, and is given the name `rfc3339_instant`.
#[verifier::external_body]
pub(crate) fn parse_rfc3339(text: &str) -> (instant: Option<i64>)
    ensures
        instant matches Some(t) ==> rfc3339_instant(text@) == Some(t as int),
        instant is None ==> rfc3339_instant(text@) is None,
{
    match chrono::DateTime::parse_from_rfc3339(text) {
        Ok(instant) => Some(instant.timestamp()),
        Err(_) => None,
    }
}

/// `chrono::NaiveDateTime::parse_from_str` with the given format, and of
/// the date and time it yields, taken as UTC by `NaiveDateTime::and_utc`,
/// `DateTime::timestamp`. The first answers an error, which is dropped
/// here, for a text that the format does not fit, or for a format that is
/// none; the others do not fail. The answer depends on the text and the
/// format alone, and is given the name `naive_instant`.
#[verifier::external_body]
pub(crate) fn parse_naive(text: &str, format: &str) -> (instant: Option<i64>)
    ensures
        instant matches Some(t) ==> naive_instant(text@, format@) == Some(t as int),
        instant is None ==> naive_instant(text@, format@) is None,
{
    match chrono::NaiveDateTime::parse_from_str(text, format) {
        Ok(read) => Some(read.and_utc().timestamp()),
        Err(_) => None,
    }
}

} // verus!
