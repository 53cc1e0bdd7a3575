//! Saying in words how far off an instant is.

use crate::calendar::{calendar_date, characters, date_text};
use crate::text::{decimal, push_decimal};
use vstd::prelude::*;
use vstd::string::*;

verus! {

/// The plural ending for a count.
pub open spec fn plural(count: int) -> Seq<char> {
    if count == 1 {
        Seq::empty()
    } else {
        "s"@
    }
}

/// A count with its unit, as in `in 5 minutes`.
pub open spec fn in_units(count: int, unit: Seq<char>) -> Seq<char> {
    "in "@ + decimal(count) + " "@ + unit + plural(count)
}

/// How an instant that lies `seconds` ahead is spoken of, `date` being the
/// calendar date it falls on: `now` for an instant that is not ahead, then
/// seconds, minutes and hours, each counted in full, `tomorrow` for one
/// full day, days up to twenty-nine, and the date from thirty days on. An
/// instant without a calendar date is spoken of in days.
pub open spec fn time_difference_text(seconds: int, date: Option<Seq<char>>) -> Seq<char> {
    let minutes = seconds / 60;
    let hours = seconds / 3600;
    let days = seconds / 86400;
    if seconds <= 0 {
        "now"@
    } else if seconds < 60 {
        "in "@ + decimal(seconds) + " seconds"@
    } else if minutes < 60 {
        in_units(minutes, "minute"@)
    } else if hours < 24 {
        in_units(hours, "hour"@)
    } else if days == 1 {
        "tomorrow"@
    } else if days < 30 {
        in_units(days, "day"@)
    } else {
        match date {
            Some(written) => "on "@ + written,
            None => in_units(days, "day"@),
        }
    }
}

/// Writes a count with its unit.
fn count_of(count: i64, unit: &str) -> (text: String)
    ensures
        text@ == in_units(count as int, unit@),
{
    let mut text = "in ".to_owned();
    push_decimal(&mut text, count);
    text.append(" ");
    text.append(unit);
    if count != 1 {
        text.append("s");
    }
    text
}

/// Says how far `seconds` ahead is, given the calendar date of the instant
/// meant.
pub fn describe_time_difference(seconds: i128, date: Option<String>) -> (text: String)
    requires
        i64::MIN - i64::MAX <= seconds <= i64::MAX - i64::MIN,
    ensures
        text@ == time_difference_text(seconds as int, characters(date)),
{
    if seconds <= 0 {
        "now".to_owned()
    } else if seconds < 60 {
        let mut text = "in ".to_owned();
        push_decimal(&mut text, seconds as i64);
        text.append(" seconds");
        text
    } else if seconds / 60 < 60 {
        count_of((seconds / 60) as i64, "minute")
    } else if seconds / 3600 < 24 {
        count_of((seconds / 3600) as i64, "hour")
    } else if seconds / 86400 == 1 {
        "tomorrow".to_owned()
    } else if seconds / 86400 < 30 {
        count_of((seconds / 86400) as i64, "day")
    } else {
        match date {
            Some(written) => {
                let mut text = "on ".to_owned();
                text.append(written.as_str());
                text
            },
            None => count_of((seconds / 86400) as i64, "day"),
        }
    }
}

/// Says how far the instant `future_date` is from `now`, both in seconds
/// since the Unix epoch.
pub fn format_time_difference(now: i64, future_date: i64) -> (text: String)
    ensures
        text@ == time_difference_text(future_date - now, calendar_date(future_date as int)),
{
    let seconds: i128 = future_date as i128 - now as i128;
    let date = if seconds / 86400 >= 30 {
        date_text(future_date)
    } else {
        None
    };
    describe_time_difference(seconds, date)
}

} // verus!
