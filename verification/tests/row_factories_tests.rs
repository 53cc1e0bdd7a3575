use memory_practice::deck::DeckStatus;
use memory_practice::row_factories::{
    first_reading, parse_datetime_with_timezone, DeckFigures, DeckRowFactory,
    ReviewItemRowFactory,
};

fn figures() -> DeckFigures {
    DeckFigures {
        total_questions: 4,
        correct_answers: 3,
        incorrect_answers: 1,
        total_time_millis: 11000,
        average_time_millis: Some(2750),
        accuracy_basis_points: Some(7500),
    }
}

// 2025-01-15 12:00:00 UTC
const NOON: i64 = 1736942400;

#[test]
fn test_parse_datetime_in_the_form_of_rfc3339() {
    assert_eq!(parse_datetime_with_timezone("2025-01-15T12:00:00+00:00"), Some(NOON));
    assert_eq!(parse_datetime_with_timezone("2025-01-15T12:00:00Z"), Some(NOON));
    assert_eq!(parse_datetime_with_timezone("2025-01-15T14:00:00+02:00"), Some(NOON));
    assert_eq!(parse_datetime_with_timezone("2025-01-15T12:00:00.987654321+00:00"), Some(NOON));
    assert_eq!(parse_datetime_with_timezone("1970-01-01T00:00:00Z"), Some(0));
    assert_eq!(parse_datetime_with_timezone("1969-12-31T23:59:59Z"), Some(-1));
}

#[test]
fn test_parse_datetime_without_a_zone_is_utc() {
    assert_eq!(parse_datetime_with_timezone("2025-01-15 12:00:00"), Some(NOON));
    assert_eq!(parse_datetime_with_timezone("2025-01-15T12:00:00"), Some(NOON));
}

#[test]
fn test_parse_datetime_refuses_other_texts() {
    for text in ["", "2025-01-15", "12:00:00", "yesterday", "2025-13-01 00:00:00", "2025-01-15 25:00:00"] {
        assert_eq!(parse_datetime_with_timezone(text), None, "{:?}", text);
    }
}

#[test]
fn test_parse_datetime_reads_what_chrono_writes() {
    let instant = chrono::DateTime::from_timestamp(NOON + 3723, 0).unwrap();
    assert_eq!(parse_datetime_with_timezone(&instant.to_rfc3339()), Some(NOON + 3723));
}

#[test]
fn test_first_reading_takes_the_first_that_reads() {
    assert_eq!(first_reading(Some(1), Some(2), Some(3)), Some(1));
    assert_eq!(first_reading(None, Some(2), Some(3)), Some(2));
    assert_eq!(first_reading(None, None, Some(3)), Some(3));
    assert_eq!(first_reading(None, None, None), None);
    assert_eq!(first_reading(Some(1), None, None), Some(1));
}

#[test]
fn test_deck_from_row() {
    let deck = DeckRowFactory::from_row(
        7,
        "2025-01-15T12:00:00+00:00",
        Some("2025-01-15 12:05:00"),
        "completed",
        figures(),
    )
    .unwrap();
    assert_eq!(deck.id, 7);
    assert_eq!(deck.created_at, NOON);
    assert_eq!(deck.completed_at, Some(NOON + 300));
    assert_eq!(deck.status, DeckStatus::Completed);
    assert_eq!(deck.total_questions, 4);
    assert_eq!(deck.correct_answers, 3);
    assert_eq!(deck.incorrect_answers, 1);
    assert_eq!(deck.total_time_millis, 11000);
    assert_eq!(deck.average_time_millis, Some(2750));
    assert_eq!(deck.accuracy_basis_points, Some(7500));
}

#[test]
fn test_deck_from_row_unknown_status_is_in_progress() {
    let deck = DeckRowFactory::from_row(1, "2025-01-15 12:00:00", None, "paused", figures()).unwrap();
    assert_eq!(deck.status, DeckStatus::InProgress);
    assert_eq!(deck.completed_at, None);
    let deck = DeckRowFactory::from_row(1, "2025-01-15 12:00:00", None, "abandoned", figures()).unwrap();
    assert_eq!(deck.status, DeckStatus::Abandoned);
}

#[test]
fn test_deck_from_row_with_unreadable_instants() {
    assert!(DeckRowFactory::from_row(1, "soon", None, "completed", figures()).is_none());
    assert!(
        DeckRowFactory::from_row(1, "2025-01-15 12:00:00", Some("later"), "completed", figures())
            .is_none()
    );
}

#[test]
fn test_review_item_from_row() {
    let item = ReviewItemRowFactory::from_row(
        3,
        9,
        2,
        6,
        2600,
        "2025-01-15T12:00:00+00:00",
        Some("2025-01-09T12:00:00+00:00"),
    )
    .unwrap();
    assert_eq!(item.id, Some(3));
    assert_eq!(item.operation_id, 9);
    assert_eq!(item.repetitions, 2);
    assert_eq!(item.interval, 6);
    assert_eq!(item.ease_factor, 2600);
    assert_eq!(item.next_review_date, NOON);
    assert_eq!(item.last_reviewed_date, Some(NOON - 6 * 86400));
    let item = ReviewItemRowFactory::from_row(3, 9, 0, 0, 2500, "2025-01-15 12:00:00", None).unwrap();
    assert_eq!(item.last_reviewed_date, None);
    assert!(ReviewItemRowFactory::from_row(3, 9, 0, 0, 2500, "", None).is_none());
    assert!(
        ReviewItemRowFactory::from_row(3, 9, 0, 0, 2500, "2025-01-15 12:00:00", Some("?")).is_none()
    );
}

#[test]
fn test_deck_from_parts() {
    let deck = DeckRowFactory::from_parts(2, 10, Some(20), "completed", figures());
    assert_eq!((deck.id, deck.created_at, deck.completed_at), (2, 10, Some(20)));
    assert_eq!(deck.status, DeckStatus::Completed);
    assert_eq!(deck.total_time_millis, 11000);
    let deck = DeckRowFactory::from_parts(2, 10, None, "", figures());
    assert_eq!(deck.status, DeckStatus::InProgress);
    let deck = DeckRowFactory::from_parts(2, 10, None, "in_progress", figures());
    assert_eq!(deck.status, DeckStatus::InProgress);
}
