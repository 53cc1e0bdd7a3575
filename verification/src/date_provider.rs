//! Where the current instant comes from: the system clock, or the clock
//! moved to a day of one's choosing.

use crate::calendar::{
    at_time_of, current_timestamp, day_of, instant_at, second_of_day, CLOCK_LIMIT,
};
use vstd::prelude::*;

verus! {

/// A source of the current instant, in seconds since the Unix epoch.
pub trait DateProvider: Send + Sync {
    fn get_current_time(&self) -> i64;
}

/// The system clock as it is.
#[derive(Debug, Clone, Copy)]
pub struct SystemDateProvider;

impl DateProvider for SystemDateProvider {
    /// The clock's reading; which one is left open.
    fn get_current_time(&self) -> (now: i64)
        ensures
            0 <= now < CLOCK_LIMIT,
    {
        current_timestamp()
    }
}

/// The system clock moved to another day: it shows the chosen day at the
/// time of day that the system clock shows.
#[derive(Debug, Clone, Copy)]
pub struct OverrideDateProvider {
    override_date: i32,
}

impl OverrideDateProvider {
    /// The day that the provider shows.
    pub closed spec fn date(self) -> int {
        self.override_date as int
    }

    pub fn new(override_date: i32) -> (provider: Self)
        ensures
            provider.date() == override_date,
    {
        Self { override_date }
    }

    /// What the provider shows when the system clock reads `now`: the
    /// chosen day, at the time of day of `now`.
    pub fn time_at(&self, now: i64) -> (shown: i64)
        ensures
            shown == instant_at(self.date(), second_of_day(now as int)),
            day_of(shown as int) == self.date(),
            second_of_day(shown as int) == second_of_day(now as int),
    {
        at_time_of(self.override_date, now)
    }
}

impl DateProvider for OverrideDateProvider {
    /// The chosen day at the current time of day; the time of day is left
    /// open.
    fn get_current_time(&self) -> (shown: i64)
        ensures
            day_of(shown as int) == self.date(),
    {
        self.time_at(current_timestamp())
    }
}

} // verus!
