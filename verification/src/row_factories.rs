//! Building decks and schedules from the columns of their stored rows.
//!
//! Instants are stored as text. They are written in the form of RFC 3339;
//! rows of older make hold date and time without a zone, which is then UTC.

use crate::calendar::{naive_instant, parse_naive, parse_rfc3339, rfc3339_instant};
use crate::deck::{Deck, DeckStatus};
use crate::spaced_repetition::ReviewItem;
use vstd::prelude::*;

verus! {

/// The instant that a stored text names: the one it names in the form of
/// RFC 3339, else the one it names as `YYYY-MM-DD HH:MM:SS`, else the one
/// it names as `YYYY-MM-DDTHH:MM:SS`; none where it names none in any of
/// these forms.
pub open spec fn stored_instant(text: Seq<char>) -> Option<int> {
    if rfc3339_instant(text) is Some {
        rfc3339_instant(text)
    } else if naive_instant(text, "%Y-%m-%d %H:%M:%S"@) is Some {
        naive_instant(text, "%Y-%m-%d %H:%M:%S"@)
    } else {
        naive_instant(text, "%Y-%m-%dT%H:%M:%S"@)
    }
}

/// Picks the first of three readings of a text that yields an instant.
pub fn first_reading(with_zone: Option<i64>, spaced: Option<i64>, joined: Option<i64>) -> (instant:
    Option<i64>)
    ensures
        instant == if with_zone is Some {
            with_zone
        } else if spaced is Some {
            spaced
        } else {
            joined
        },
{
    match with_zone {
        Some(t) => Some(t),
        None => match spaced {
            Some(t) => Some(t),
            None => joined,
        },
    }
}

/// Reads a stored instant, as `stored_instant` says.
pub fn parse_datetime_with_timezone(datetime_str: &str) -> (instant: Option<i64>)
    ensures
        instant matches Some(t) ==> stored_instant(datetime_str@) == Some(t as int),
        instant is None ==> stored_instant(datetime_str@) is None,
{
    let with_zone = parse_rfc3339(datetime_str);
    let spaced = match with_zone {
        Some(_) => None,
        None => parse_naive(datetime_str, "%Y-%m-%d %H:%M:%S"),
    };
    let joined = match (with_zone, spaced) {
        (None, None) => parse_naive(datetime_str, "%Y-%m-%dT%H:%M:%S"),
        _ => None,
    };
    first_reading(with_zone, spaced, joined)
}

/// The status that a stored name stands for: the one it names, and in
/// progress where it names none.
pub open spec fn stored_status(name: Seq<char>) -> DeckStatus {
    match DeckStatus::named(name) {
        Some(status) => status,
        None => DeckStatus::InProgress,
    }
}

/// The figures of a stored deck.
#[derive(Debug, Clone, Copy)]
pub struct DeckFigures {
    pub total_questions: i32,
    pub correct_answers: i32,
    pub incorrect_answers: i32,
    pub total_time_millis: u64,
    pub average_time_millis: Option<u64>,
    pub accuracy_basis_points: Option<u32>,
}

/// Builds decks from stored rows.
#[derive(Debug, Clone, Copy)]
pub struct DeckRowFactory;

impl DeckRowFactory {
    /// The deck that a row stands for, its instants already read: the
    /// columns as they are, the status read from its name.
    pub open spec fn deck(
        id: i64,
        created_at: i64,
        completed_at: Option<i64>,
        status: Seq<char>,
        figures: DeckFigures,
    ) -> Deck {
        Deck {
            id,
            created_at,
            completed_at,
            status: stored_status(status),
            total_questions: figures.total_questions,
            correct_answers: figures.correct_answers,
            incorrect_answers: figures.incorrect_answers,
            total_time_millis: figures.total_time_millis,
            average_time_millis: figures.average_time_millis,
            accuracy_basis_points: figures.accuracy_basis_points,
        }
    }

    /// Builds a deck from the columns of its row. The row stands for no
    /// deck where the text of an instant names none.
    pub fn from_row(
        id: i64,
        created_at: &str,
        completed_at: Option<&str>,
        status: &str,
        figures: DeckFigures,
    ) -> (deck: Option<Deck>)
        ensures
            deck is Some <==> stored_instant(created_at@) is Some && (completed_at matches Some(
                text,
            ) ==> stored_instant(text@) is Some),
            deck matches Some(d) ==> {
                &&& stored_instant(created_at@) == Some(d.created_at as int)
                &&& match completed_at {
                    Some(text) => d.completed_at matches Some(t) && stored_instant(text@) == Some(
                        t as int,
                    ),
                    None => d.completed_at is None,
                }
                &&& d == Self::deck(id, d.created_at, d.completed_at, status@, figures)
            },
    {
        let created = match parse_datetime_with_timezone(created_at) {
            Some(t) => t,
            None => {
                return None;
            },
        };
        let completed = match completed_at {
            Some(text) => match parse_datetime_with_timezone(text) {
                Some(t) => Some(t),
                None => {
                    return None;
                },
            },
            None => None,
        };
        Some(Self::from_parts(id, created, completed, status, figures))
    }

    /// Builds a deck from the columns of its row, its instants already
    /// read.
    pub fn from_parts(
        id: i64,
        created_at: i64,
        completed_at: Option<i64>,
        status: &str,
        figures: DeckFigures,
    ) -> (deck: Deck)
        ensures
            deck == Self::deck(id, created_at, completed_at, status@, figures),
    {
        let status = match DeckStatus::from(status) {
            Some(status) => status,
            None => DeckStatus::InProgress,
        };
        Deck {
            id,
            created_at,
            completed_at,
            status,
            total_questions: figures.total_questions,
            correct_answers: figures.correct_answers,
            incorrect_answers: figures.incorrect_answers,
            total_time_millis: figures.total_time_millis,
            average_time_millis: figures.average_time_millis,
            accuracy_basis_points: figures.accuracy_basis_points,
        }
    }
}

/// Builds schedules from stored rows.
#[derive(Debug, Clone, Copy)]
pub struct ReviewItemRowFactory;

impl ReviewItemRowFactory {
    /// Builds a schedule from the columns of its row. The row stands for no
    /// schedule where the text of an instant names none.
    pub fn from_row(
        id: i64,
        operation_id: i64,
        repetitions: i32,
        interval: i32,
        ease_factor: u32,
        next_review_date: &str,
        last_reviewed_date: Option<&str>,
    ) -> (item: Option<ReviewItem>)
        ensures
            item is Some <==> stored_instant(next_review_date@) is Some && (
            last_reviewed_date matches Some(text) ==> stored_instant(text@) is Some),
            item matches Some(i) ==> {
                &&& i.id == Some(id)
                &&& i.operation_id == operation_id
                &&& i.repetitions == repetitions
                &&& i.interval == interval
                &&& i.ease_factor == ease_factor
                &&& stored_instant(next_review_date@) == Some(i.next_review_date as int)
                &&& match last_reviewed_date {
                    Some(text) => i.last_reviewed_date matches Some(t) && stored_instant(text@)
                        == Some(t as int),
                    None => i.last_reviewed_date is None,
                }
            },
    {
        let due = match parse_datetime_with_timezone(next_review_date) {
            Some(t) => t,
            None => {
                return None;
            },
        };
        let reviewed = match last_reviewed_date {
            Some(text) => match parse_datetime_with_timezone(text) {
                Some(t) => Some(t),
                None => {
                    return None;
                },
            },
            None => None,
        };
        Some(
            ReviewItem {
                id: Some(id),
                operation_id,
                repetitions,
                interval,
                ease_factor,
                next_review_date: due,
                last_reviewed_date: reviewed,
            },
        )
    }
}

} // verus!
