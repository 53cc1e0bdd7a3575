//! The judgements and the figures of the performance report: what counts as
//! good, whether answers got faster, and how times and shares are written.

use crate::spaced_repetition::AnswerTimedEvaluator;
use crate::text::{decimal, digit_char, digit_str, push_decimal};
use vstd::prelude::*;
use vstd::string::*;

verus! {

/// From which accuracy on, in hundredths of a percent, a result is good.
pub const GOOD_ACCURACY: u32 = 9000;

/// From which accuracy on, in hundredths of a percent, a result is fair.
pub const FAIR_ACCURACY: u32 = 7500;

/// By how many milliseconds two averages may differ and still count as
/// unchanged.
pub const TOLERANCE: u32 = 1;

/// How an accuracy is rated.
#[derive(Debug, Clone, Copy, PartialEq, Eq, Structural)]
pub enum AccuracyBand {
    Good,
    Fair,
    Poor,
}

/// How an average time moved.
#[derive(Debug, Clone, Copy, PartialEq, Eq, Structural)]
pub enum Trend {
    /// Answers got faster by so many milliseconds, which is so many
    /// hundredths of a percent of the earlier average.
    Improvement { millis: u32, basis_points: u64 },
    /// Answers got slower by so many milliseconds; `share` is that in
    /// hundredths of a percent of the earlier average, and missing where
    /// the earlier average is zero.
    Decline { millis: u32, share: Option<u64> },
    /// The averages differ by no more than the tolerance.
    NoChange,
}

/// The rating of an accuracy.
pub open spec fn band_of(accuracy: u32) -> AccuracyBand {
    if accuracy >= GOOD_ACCURACY {
        AccuracyBand::Good
    } else if accuracy >= FAIR_ACCURACY {
        AccuracyBand::Fair
    } else {
        AccuracyBand::Poor
    }
}

/// The move from the average `from` to the average `to`.
pub open spec fn trend_of(from: u32, to: u32) -> Trend {
    if from - to > TOLERANCE {
        Trend::Improvement {
            millis: (from - to) as u32,
            basis_points: ((from - to) * 10000 / (from as int)) as u64,
        }
    } else if to - from > TOLERANCE {
        Trend::Decline {
            millis: (to - from) as u32,
            share: if from == 0 {
                None
            } else {
                Some(((to - from) * 10000 / (from as int)) as u64)
            },
        }
    } else {
        Trend::NoChange
    }
}

/// Two digits for a number below a hundred.
pub open spec fn two_digits(n: int) -> Seq<char> {
    seq![digit_char(n / 10), digit_char(n % 10)]
}

/// A time in milliseconds written in seconds with two decimals, rounded to
/// the nearest hundredth, halves upwards: `2750` is `2.75s`.
pub open spec fn seconds_text(millis: u64) -> Seq<char> {
    let hundredths = (millis + 5) / 10;
    decimal(hundredths / 100) + "."@ + two_digits(hundredths % 100) + "s"@
}

/// A share in hundredths of a percent written in percent with one decimal,
/// rounded to the nearest tenth, halves upwards: `7500` is `75.0%`.
pub open spec fn percent_text(basis_points: u64) -> Seq<char> {
    let tenths = (basis_points + 5) / 10;
    decimal(tenths / 10) + "."@ + seq![digit_char(tenths % 10)] + "%"@
}

pub fn accuracy_band(accuracy: u32) -> (band: AccuracyBand)
    ensures
        band == band_of(accuracy),
{
    if accuracy >= GOOD_ACCURACY {
        AccuracyBand::Good
    } else if accuracy >= FAIR_ACCURACY {
        AccuracyBand::Fair
    } else {
        AccuracyBand::Poor
    }
}

/// Whether two sets of norms are the same within the tolerance.
pub fn stats_are_same(first: &AnswerTimedEvaluator, second: &AnswerTimedEvaluator) -> (same: bool)
    ensures
        same == (first.average - second.average < TOLERANCE && second.average - first.average
            < TOLERANCE && first.standard_deviation - second.standard_deviation < TOLERANCE
            && second.standard_deviation - first.standard_deviation < TOLERANCE),
        same == (*first == *second),
{
    first.average == second.average && first.standard_deviation == second.standard_deviation
}

/// Compares two average times, the earlier first.
pub fn improvement(from_avg: u32, to_avg: u32) -> (trend: Trend)
    ensures
        trend == trend_of(from_avg, to_avg),
{
    if from_avg > to_avg && from_avg - to_avg > TOLERANCE {
        let millis = from_avg - to_avg;
        Trend::Improvement { millis, basis_points: millis as u64 * 10000 / from_avg as u64 }
    } else if to_avg > from_avg && to_avg - from_avg > TOLERANCE {
        let millis = to_avg - from_avg;
        let share = if from_avg == 0 {
            None
        } else {
            Some(millis as u64 * 10000 / from_avg as u64)
        };
        Trend::Decline { millis, share }
    } else {
        Trend::NoChange
    }
}

pub fn format_seconds(millis: u64) -> (text: String)
    ensures
        text@ == seconds_text(millis),
{
    let hundredths: u64 = millis / 10 + (millis % 10 + 5) / 10;
    let mut text = String::new();
    push_decimal(&mut text, (hundredths / 100) as i64);
    text.append(".");
    text.append(digit_str((hundredths % 100 / 10) as u8));
    text.append(digit_str((hundredths % 10) as u8));
    text.append("s");
    text
}

pub fn format_percent(basis_points: u64) -> (text: String)
    ensures
        text@ == percent_text(basis_points),
{
    let tenths: u64 = basis_points / 10 + (basis_points % 10 + 5) / 10;
    let mut text = String::new();
    push_decimal(&mut text, (tenths / 10) as i64);
    text.append(".");
    text.append(digit_str((tenths % 10) as u8));
    text.append("%");
    text
}

} // verus!
