use memory_practice::deck::{DeckStatus, DeckSummary};

#[test]
fn test_deck_status_as_str() {
    assert_eq!(DeckStatus::InProgress.as_str(), "in_progress");
    assert_eq!(DeckStatus::Completed.as_str(), "completed");
    assert_eq!(DeckStatus::Abandoned.as_str(), "abandoned");
}

#[test]
fn test_deck_status_from_str() {
    assert_eq!(
        DeckStatus::from("in_progress"),
        Some(DeckStatus::InProgress)
    );
    assert_eq!(DeckStatus::from("completed"), Some(DeckStatus::Completed));
    assert_eq!(DeckStatus::from("abandoned"), Some(DeckStatus::Abandoned));
    assert_eq!(DeckStatus::from("invalid"), None);
}

#[test]
fn test_deck_summary_calculation() {
    let results = vec![(true, 2000), (true, 3000), (false, 5000), (true, 1000)];

    let summary = DeckSummary::from_results(&results);

    assert_eq!(summary.total_questions, 4);
    assert_eq!(summary.correct_answers, 3);
    assert_eq!(summary.incorrect_answers, 1);
    assert_eq!(summary.total_time_millis, 11000);
    assert_eq!(summary.average_time_millis, 2750);
    assert_eq!(summary.accuracy_basis_points, 7500);
}

#[test]
fn test_deck_summary_all_correct() {
    let results = vec![(true, 1000), (true, 2000), (true, 3000)];
    let summary = DeckSummary::from_results(&results);

    assert_eq!(summary.accuracy_basis_points, 10000);
    assert_eq!(summary.correct_answers, 3);
    assert_eq!(summary.incorrect_answers, 0);
}

#[test]
fn test_deck_summary_all_incorrect() {
    let results = vec![(false, 1000), (false, 2000), (false, 3000)];
    let summary = DeckSummary::from_results(&results);

    assert_eq!(summary.accuracy_basis_points, 0);
    assert_eq!(summary.correct_answers, 0);
    assert_eq!(summary.incorrect_answers, 3);
}

#[test]
fn test_deck_summary_empty() {
    let results: Vec<(bool, u32)> = vec![];
    let summary = DeckSummary::from_results(&results);

    assert_eq!(summary.total_questions, 0);
    assert_eq!(summary.accuracy_basis_points, 0);
}

#[test]
fn test_deck_status_round_trip() {
    for status in [DeckStatus::InProgress, DeckStatus::Completed, DeckStatus::Abandoned] {
        assert_eq!(DeckStatus::from(status.as_str()), Some(status));
    }
    assert_eq!(DeckStatus::from(""), None);
    assert_eq!(DeckStatus::from("Completed"), None);
    assert_eq!(DeckStatus::from("completed "), None);
}

#[test]
fn test_deck_summary_rounds_down() {
    let results = vec![(true, 1000), (false, 1000), (false, 1001)];
    let summary = DeckSummary::from_results(&results);
    assert_eq!(summary.total_time_millis, 3001);
    assert_eq!(summary.average_time_millis, 1000);
    assert_eq!(summary.accuracy_basis_points, 3333);
    assert_eq!(
        summary,
        DeckSummary {
            total_questions: 3,
            correct_answers: 1,
            incorrect_answers: 2,
            total_time_millis: 3001,
            average_time_millis: 1000,
            accuracy_basis_points: 3333,
        }
    );
}

#[test]
fn test_deck_summary_longest_times() {
    let results = vec![(true, u32::MAX), (true, u32::MAX)];
    let summary = DeckSummary::from_results(&results);
    assert_eq!(summary.total_time_millis, 2 * (u32::MAX as u64));
    assert_eq!(summary.average_time_millis, u32::MAX as u64);
}
