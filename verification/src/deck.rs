//! Practice blocks ("decks"): their status and the summary of their answers.
//!
//! Times are whole milliseconds; the accuracy is kept in hundredths of a
//! percent (`7500` is 75 %).

use crate::text::same_text;
use vstd::prelude::*;

verus! {

/// Where a deck stands.
#[derive(Debug, Clone, Copy, PartialEq, Eq, Structural)]
pub enum DeckStatus {
    InProgress,
    Completed,
    Abandoned,
}

impl DeckStatus {
    /// The name under which the status is stored.
    pub open spec fn name(self) -> Seq<char> {
        match self {
            DeckStatus::InProgress => "in_progress"@,
            DeckStatus::Completed => "completed"@,
            DeckStatus::Abandoned => "abandoned"@,
        }
    }

    /// The status that is stored under `name`, if there is one.
    pub open spec fn named(name: Seq<char>) -> Option<DeckStatus> {
        if name == DeckStatus::InProgress.name() {
            Some(DeckStatus::InProgress)
        } else if name == DeckStatus::Completed.name() {
            Some(DeckStatus::Completed)
        } else if name == DeckStatus::Abandoned.name() {
            Some(DeckStatus::Abandoned)
        } else {
            None
        }
    }

    pub fn as_str(&self) -> (s: &str)
        ensures
            s@ == self.name(),
    {
        match self {
            DeckStatus::InProgress => "in_progress",
            DeckStatus::Completed => "completed",
            DeckStatus::Abandoned => "abandoned",
        }
    }

    /// Reads a stored name back; any other text names no status.
    pub fn from(s: &str) -> (status: Option<DeckStatus>)
        ensures
            status == DeckStatus::named(s@),
    {
        if same_text(s, "in_progress") {
            Some(DeckStatus::InProgress)
        } else if same_text(s, "completed") {
            Some(DeckStatus::Completed)
        } else if same_text(s, "abandoned") {
            Some(DeckStatus::Abandoned)
        } else {
            None
        }
    }
}

/// The three names differ, so a stored name is read back as the status that
/// wrote it.
pub proof fn lemma_status_round_trip(status: DeckStatus)
    ensures
        DeckStatus::named(status.name()) == Some(status),
{
    reveal_strlit("in_progress");
    reveal_strlit("completed");
    reveal_strlit("abandoned");
    assert("completed"@[0] == 'c');
    assert("abandoned"@[0] == 'a');
}

/// A deck as it is stored.
#[derive(Debug, Clone, Copy)]
pub struct Deck {
    pub id: i64,
    /// When the deck was started, in seconds since the epoch.
    pub created_at: i64,
    /// When the deck was completed, if it was.
    pub completed_at: Option<i64>,
    pub status: DeckStatus,
    pub total_questions: i32,
    pub correct_answers: i32,
    pub incorrect_answers: i32,
    pub total_time_millis: u64,
    pub average_time_millis: Option<u64>,
    pub accuracy_basis_points: Option<u32>,
}

/// The answers of a deck in figures.
#[derive(Debug, Clone, Copy, PartialEq, Eq, Structural)]
pub struct DeckSummary {
    pub total_questions: i32,
    pub correct_answers: i32,
    pub incorrect_answers: i32,
    pub total_time_millis: u64,
    /// The total time over the number of questions, rounded down; zero for
    /// an empty deck.
    pub average_time_millis: u64,
    /// The share of correct answers in hundredths of a percent, rounded
    /// down; zero for an empty deck.
    pub accuracy_basis_points: u32,
}

/// How many of the answers are correct. An answer is a pair of its
/// correctness and the time it took.
pub open spec fn correct_count(results: Seq<(bool, u32)>) -> nat
    decreases results.len(),
{
    if results.len() == 0 {
        0
    } else {
        correct_count(results.drop_last()) + if results.last().0 {
            1nat
        } else {
            0nat
        }
    }
}

/// The time that all the answers took together.
pub open spec fn total_time(results: Seq<(bool, u32)>) -> nat
    decreases results.len(),
{
    if results.len() == 0 {
        0
    } else {
        total_time(results.drop_last()) + results.last().1 as nat
    }
}

/// No more answers are correct than there are, and together they take no
/// longer than if each took the longest time a single answer can.
pub proof fn lemma_summary_bounds(results: Seq<(bool, u32)>)
    ensures
        correct_count(results) <= results.len(),
        total_time(results) <= results.len() * u32::MAX,
    decreases results.len(),
{
    if results.len() > 0 {
        lemma_summary_bounds(results.drop_last());
    }
}

impl DeckSummary {
    /// The summary of the given answers.
    pub open spec fn of(results: Seq<(bool, u32)>) -> DeckSummary {
        let total = results.len();
        let correct = correct_count(results);
        let time = total_time(results);
        DeckSummary {
            total_questions: total as i32,
            correct_answers: correct as i32,
            incorrect_answers: (total - correct) as i32,
            total_time_millis: time as u64,
            average_time_millis: if total > 0 {
                (time / total) as u64
            } else {
                0
            },
            accuracy_basis_points: if total > 0 {
                (correct * 10000 / total) as u32
            } else {
                0
            },
        }
    }

    /// Sums a deck's answers up. There may be no more of them than an `i32`
    /// counts.
    pub fn from_results(results: &[(bool, u32)]) -> (summary: Self)
        requires
            results@.len() <= i32::MAX,
        ensures
            summary == DeckSummary::of(results@),
            summary.total_questions == results@.len(),
            summary.correct_answers == correct_count(results@),
            summary.correct_answers + summary.incorrect_answers == summary.total_questions,
            summary.total_time_millis == total_time(results@),
            summary.accuracy_basis_points <= 10000,
    {
        let total: usize = results.len();
        let mut correct: usize = 0;
        let mut time: u64 = 0;
        let mut i: usize = 0;
        while i < total
            invariant
                i <= total,
                total == results@.len(),
                total <= i32::MAX,
                correct == correct_count(results@.take(i as int)),
                time == total_time(results@.take(i as int)),
            decreases total - i,
        {
            proof {
                let before = results@.take(i as int);
                let after = results@.take(i as int + 1);
                assert(after.drop_last() =~= before);
                lemma_summary_bounds(before);
            }
            if results[i].0 {
                correct = correct + 1;
            }
            time = time + results[i].1 as u64;
            i = i + 1;
        }
        proof {
            assert(results@.take(total as int) =~= results@);
            lemma_summary_bounds(results@);
        }
        let average: u64 = if total > 0 {
            time / total as u64
        } else {
            0
        };
        let accuracy: u32 = if total > 0 {
            assert(correct * 10000 / total as int <= 10000) by (nonlinear_arith)
                requires
                    correct <= total,
                    total > 0,
            ;
            (correct as u64 * 10000 / total as u64) as u32
        } else {
            0
        };
        DeckSummary {
            total_questions: total as i32,
            correct_answers: correct as i32,
            incorrect_answers: (total - correct) as i32,
            total_time_millis: time,
            average_time_millis: average,
            accuracy_basis_points: accuracy,
        }
    }
}

} // verus!
