//! The command line's arguments, once they are read.

use crate::calendar::{parse_date, parsed_date};
use vstd::prelude::*;
use vstd::string::*;

verus! {

/// What the command line asks for.
#[derive(Debug)]
pub struct Args {
    /// Keep the store in memory, for tests.
    pub test: bool,
    /// A path of one's own for the store.
    pub db_path: Option<String>,
    /// The day to take for today, written `YYYY-MM-DD`.
    pub override_date: Option<String>,
}

/// What is said of a value of `--override-date` that names no day.
pub open spec fn invalid_date_message(value: Seq<char>) -> Seq<char> {
    "Invalid date format for --override-date: '"@ + value + "'. Expected YYYY-MM-DD"@
}

impl Args {
    /// The verdict on the value of `--override-date`, `day` being the day
    /// that it names, if it names one: no value is in order and means no
    /// day; a value that names a day means that day; any other is refused
    /// with a message that quotes it.
    pub open spec fn verdict(self, day: Option<int>) -> Result<Option<int>, Seq<char>> {
        match self.override_date {
            None => Ok(None),
            Some(value) => match day {
                Some(d) => Ok(Some(d)),
                None => Err(invalid_date_message(value@)),
            },
        }
    }

    /// The day that the value of `--override-date` names, if there is a
    /// value and it names one.
    pub open spec fn named_day(self) -> Option<int> {
        match self.override_date {
            Some(value) => parsed_date(value@),
            None => None,
        }
    }

    /// Checks the value of `--override-date`, if there is one.
    pub fn validate_override_date(&self) -> (checked: Result<Option<i32>, String>)
        ensures
            verdict_of(checked) == self.verdict(self.named_day()),
    {
        let day = match &self.override_date {
            Some(value) => parse_date(value.as_str()),
            None => None,
        };
        self.validate_with(day)
    }

    /// Gives the verdict on the value of `--override-date`, the day that it
    /// names already read.
    pub fn validate_with(&self, day: Option<i32>) -> (checked: Result<Option<i32>, String>)
        ensures
            verdict_of(checked) == self.verdict(
                match day {
                    Some(d) => Some(d as int),
                    None => None,
                },
            ),
    {
        match &self.override_date {
            None => Ok(None),
            Some(value) => match day {
                Some(d) => Ok(Some(d)),
                None => {
                    let mut message = "Invalid date format for --override-date: '".to_owned();
                    message.append(value.as_str());
                    message.append("'. Expected YYYY-MM-DD");
                    Err(message)
                },
            },
        }
    }
}

/// A verdict as contracts see it.
pub open spec fn verdict_of(checked: Result<Option<i32>, String>) -> Result<
    Option<int>,
    Seq<char>,
> {
    match checked {
        Ok(Some(day)) => Ok(Some(day as int)),
        Ok(None) => Ok(None),
        Err(message) => Err(message@),
    }
}

} // verus!
