//! Streaks of practice days.
//!
//! A day is the number of a calendar day, counted in days from any fixed
//! day, so that yesterday is today minus one. The days on which answers
//! were given are handed in latest first, each day once, as the store lists
//! them.

use vstd::prelude::*;

verus! {

/// How many days the window of recent practice spans, today included.
pub const RECENT_DAYS: i32 = 10;

/// How many of the leading days run on without a gap down from `first`:
/// the first day is `first`, the second the day before it, and so on.
pub open spec fn run_length(days: Seq<i32>, first: int) -> nat
    decreases days.len(),
{
    if days.len() == 0 || days[0] != first {
        0
    } else {
        1 + run_length(days.drop_first(), first - 1)
    }
}

/// The streak as of `today`: the run of practice days without a gap that
/// ends today, or yesterday if today has no answers yet; zero where the
/// latest practice day is older than that.
pub open spec fn streak_as_of(days: Seq<i32>, today: int) -> nat {
    if days.len() == 0 {
        0
    } else if days[0] == today || days[0] == today - 1 {
        run_length(days, days[0] as int)
    } else {
        0
    }
}

/// A run is as long as the days go on one by one: each day of the run is
/// one earlier than the day before it, and the day after the run, if there
/// is one, is not.
pub proof fn lemma_run_length(days: Seq<i32>, first: int)
    ensures
        run_length(days, first) <= days.len(),
        forall|k: int| 0 <= k < run_length(days, first) ==> #[trigger] days[k] == first - k,
        run_length(days, first) < days.len() ==> days[run_length(days, first) as int] != first
            - run_length(days, first),
    decreases days.len(),
{
    if days.len() > 0 && days[0] == first {
        let rest = days.drop_first();
        lemma_run_length(rest, first - 1);
        assert forall|k: int| 0 <= k < run_length(days, first) implies #[trigger] days[k] == first
            - k by {
            if k > 0 {
                assert(days[k] == rest[k - 1]);
            }
        }
    }
}

/// The days of the window of `RECENT_DAYS` days that ends `today`, latest
/// first.
pub open spec fn recent_window(today: int) -> Seq<int> {
    Seq::new(RECENT_DAYS as nat, |k: int| today - k)
}

/// Whether a day lies in the window that ends `today`.
pub open spec fn is_recent(day: int, today: int) -> bool {
    today - RECENT_DAYS < day <= today
}

/// The practice days in the window that ends `today`, in the order given.
pub open spec fn recent_days(days: Seq<i32>, today: int) -> Seq<i32> {
    days.filter(|day: i32| is_recent(day as int, today))
}

/// The days of the window that ends `today` on which no answer was given,
/// latest first.
pub open spec fn missing_days(days: Seq<i32>, today: int) -> Seq<int> {
    recent_window(today).filter(|day: int| !days.map_values(|d: i32| d as int).contains(day))
}

/// Counts and lists practice days.
#[derive(Debug, Clone, Copy)]
pub struct StreakRepository;

impl StreakRepository {
    pub fn new() -> (repository: Self) {
        Self
    }

    /// The number of days in a row, up to `today`, on which answers were
    /// given. A streak that reached yesterday still counts; an older one is
    /// broken and counts zero.
    pub fn calculate_consecutive_days(&self, days: &[i32], today: i32) -> (streak: i32)
        requires
            days@.len() <= i32::MAX,
        ensures
            streak == streak_as_of(days@, today as int),
            0 <= streak <= days@.len(),
    {
        if days.len() == 0 {
            return 0;
        }
        let first = days[0] as i64;
        if first != today as i64 && first != today as i64 - 1 {
            return 0;
        }
        let mut streak: i32 = 0;
        let mut index: usize = 0;
        proof {
            assert(days@.skip(0) =~= days@);
        }
        while index < days.len() && days[index] as i64 == first - index as i64
            invariant
                index <= days@.len(),
                days@.len() <= i32::MAX,
                streak == index,
                first == days@[0],
                run_length(days@, first as int) == index + run_length(
                    days@.skip(index as int),
                    first - index,
                ),
            decreases days@.len() - index,
        {
            proof {
                let rest = days@.skip(index as int);
                assert(rest.drop_first() =~= days@.skip(index as int + 1));
            }
            streak = streak + 1;
            index = index + 1;
        }
        streak
    }

    /// The practice days among `days` that lie in the window of
    /// `RECENT_DAYS` days ending `today`, in the order given.
    pub fn get_days_with_answers(&self, days: &[i32], today: i32) -> (recent: Vec<i32>)
        ensures
            recent@ == recent_days(days@, today as int),
    {
        let ghost in_window = |day: i32| is_recent(day as int, today as int);
        let mut recent: Vec<i32> = Vec::new();
        let mut i: usize = 0;
        while i < days.len()
            invariant
                i <= days@.len(),
                in_window == (|day: i32| is_recent(day as int, today as int)),
                recent@ == days@.take(i as int).filter(in_window),
            decreases days@.len() - i,
        {
            proof {
                reveal(Seq::filter);
                assert(days@.take(i as int + 1).drop_last() =~= days@.take(i as int));
            }
            let day = days[i] as i64;
            if today as i64 - (RECENT_DAYS as i64) < day && day <= today as i64 {
                recent.push(days[i]);
            }
            i = i + 1;
        }
        proof {
            assert(days@.take(days@.len() as int) =~= days@);
        }
        recent
    }

    /// The days of the window of `RECENT_DAYS` days ending `today` on which
    /// no answer was given, latest first. The window is the same whatever
    /// `_max_days` says.
    pub fn get_missing_days(&self, days: &[i32], _max_days: i32, today: i32) -> (missing: Vec<i32>)
        requires
            today - RECENT_DAYS + 1 >= i32::MIN,
        ensures
            missing@.map_values(|d: i32| d as int) == missing_days(days@, today as int),
    {
        let ghost answered = days@.map_values(|d: i32| d as int);
        let ghost unanswered = |day: int| !answered.contains(day);
        let ghost window = recent_window(today as int);
        let mut missing: Vec<i32> = Vec::new();
        let mut back: i32 = 0;
        while back < RECENT_DAYS
            invariant
                0 <= back <= RECENT_DAYS,
                today - RECENT_DAYS + 1 >= i32::MIN,
                answered == days@.map_values(|d: i32| d as int),
                unanswered == (|day: int| !answered.contains(day)),
                window == recent_window(today as int),
                missing@.map_values(|d: i32| d as int) == window.take(back as int).filter(
                    unanswered,
                ),
            decreases RECENT_DAYS - back,
        {
            let day: i32 = today - back;
            let found = Self::holds(days, day);
            proof {
                reveal(Seq::filter);
                assert(window.take(back as int + 1).drop_last() =~= window.take(back as int));
                if found {
                    let k = choose|k: int| 0 <= k < days@.len() && days@[k] == day;
                    assert(answered[k] == day as int);
                } else {
                    if answered.contains(day as int) {
                        let k = choose|k: int| 0 <= k < answered.len() && answered[k] == day as int;
                    }
                }
            }
            if !found {
                missing.push(day);
            }
            back = back + 1;
        }
        proof {
            assert(window.take(RECENT_DAYS as int) =~= window);
        }
        missing
    }

    /// Whether `day` is among `days`.
    fn holds(days: &[i32], day: i32) -> (found: bool)
        ensures
            found == days@.contains(day),
    {
        let mut i: usize = 0;
        while i < days.len()
            invariant
                i <= days@.len(),
                forall|k: int| 0 <= k < i ==> days@[k] != day,
            decreases days@.len() - i,
        {
            if days[i] == day {
                return true;
            }
            i = i + 1;
        }
        false
    }
}

} // verus!
