use memory_practice::answer_evaluator_service::{
    AnswerEvaluatorService, DEFAULT_AVERAGE, DEFAULT_STANDARD_DEVIATION,
};
use memory_practice::spaced_repetition::AnswerTimedEvaluator;
use memory_practice::time_statistics::{
    integer_sqrt, norms_of_times, TimeStatisticsRepository, TimedAnswer,
};

fn answer(operation_type: &str, is_correct: bool, time_spent: u32, deck_completed: bool) -> TimedAnswer {
    TimedAnswer {
        operation_type: operation_type.to_string(),
        is_correct,
        time_spent,
        deck_completed,
    }
}

#[test]
fn time_statistics_test_compute_time_statistics_empty_database() {
    let repo = TimeStatisticsRepository::new();
    let result = repo.for_operation_type(&[], "ADD");
    assert!(result.is_none());
}

#[test]
fn time_statistics_test_compute_time_statistics_single_answer() {
    let time_stats_repo = TimeStatisticsRepository::new();
    let answers = [answer("ADD", true, 2000, true)];

    let result = time_stats_repo.for_operation_type(&answers, "ADD");
    assert!(result.is_some());
    let eval = result.unwrap();
    assert_eq!(eval.average, 2000);
    // Single value: variance = (4.0/1) - (2.0/1)^2 = 0
    assert_eq!(eval.standard_deviation, 0);
}

#[test]
fn time_statistics_test_compute_time_statistics_all_operations_multiple_types() {
    let time_stats_repo = TimeStatisticsRepository::new();
    let answers = [
        answer("ADD", true, 1000, true),
        answer("MULTIPLY", true, 3000, true),
        answer("MULTIPLY", true, 5000, true),
    ];

    let add_eval = time_stats_repo.for_operation_type(&answers, "ADD").unwrap();
    assert_eq!(add_eval.average, 1000);

    let mult_eval = time_stats_repo.for_operation_type(&answers, "MULTIPLY").unwrap();
    assert_eq!(mult_eval.average, 4000); // (3.0 + 5.0) / 2 = 4.0
    assert_eq!(mult_eval.standard_deviation, 1000);
}

#[test]
fn test_get_evaluator_with_historical_data() {
    let service = AnswerEvaluatorService::new();
    let answers = [
        answer("addition", true, 1000, true),
        answer("addition", true, 1500, true),
        answer("addition", true, 2000, true),
    ];
    let history = TimeStatisticsRepository::new().for_operation_type(&answers, "addition");

    let evaluator = service.get_evaluator(history);

    // Verify that the evaluator was created and has valid values
    assert!(evaluator.average > 0);
    assert_eq!(evaluator.average, 1500);
    // variance 166666.67 ms^2, its root 408.2 ms
    assert_eq!(evaluator.standard_deviation, 408);
}

#[test]
fn test_get_evaluator_without_historical_data() {
    let service = AnswerEvaluatorService::new();
    let history = TimeStatisticsRepository::new().for_operation_type(&[], "multiplication");

    let evaluator = service.get_evaluator(history);

    // Should return default fallback values
    assert_eq!(evaluator.average, 3000);
    assert_eq!(evaluator.standard_deviation, 2000);
}

#[test]
fn test_get_evaluator_different_operation_types() {
    let service = AnswerEvaluatorService::new();
    let repo = TimeStatisticsRepository::new();

    // Both should return fallback since no data exists
    let eval_add = service.get_evaluator(repo.for_operation_type(&[], "addition"));
    let eval_sub = service.get_evaluator(repo.for_operation_type(&[], "subtraction"));

    assert_eq!(eval_add.average, 3000);
    assert_eq!(eval_sub.average, 3000);
}

#[test]
fn test_get_evaluator_fallback_values() {
    let service = AnswerEvaluatorService::new();

    let evaluator = service.get_evaluator(None);

    // Verify fallback values
    assert_eq!(evaluator.average, 3000);
    assert_eq!(evaluator.standard_deviation, 2000);
    assert_eq!(DEFAULT_AVERAGE, 3000);
    assert_eq!(DEFAULT_STANDARD_DEVIATION, 2000);
}

#[test]
fn test_get_evaluator_keeps_history() {
    let service = AnswerEvaluatorService::new();
    let norms = AnswerTimedEvaluator::new(1234, 567);
    assert_eq!(service.get_evaluator(Some(norms)), norms);
}

#[test]
fn test_norms_count_correct_answers_of_completed_decks_only() {
    let repo = TimeStatisticsRepository::new();
    let answers = [
        answer("ADD", true, 1000, true),
        answer("ADD", false, 9000, true),
        answer("ADD", true, 9000, false),
        answer("MULTIPLY", true, 9000, true),
        answer("add", true, 9000, true),
        answer("ADD", true, 3000, true),
    ];
    assert_eq!(
        repo.for_operation_type(&answers, "ADD"),
        Some(AnswerTimedEvaluator::new(2000, 1000))
    );
    assert_eq!(repo.for_operation_type(&answers, "SUBTRACT"), None);
    let none_counts = [answer("ADD", false, 1000, true), answer("ADD", true, 1000, false)];
    assert_eq!(repo.for_operation_type(&none_counts, "ADD"), None);
}

#[test]
fn test_norms_of_times_exact_values() {
    assert_eq!(norms_of_times(&[]), None);
    assert_eq!(norms_of_times(&[0]), Some(AnswerTimedEvaluator::new(0, 0)));
    assert_eq!(norms_of_times(&[7, 7, 7]), Some(AnswerTimedEvaluator::new(7, 0)));
    // mean 5, variance 4
    assert_eq!(
        norms_of_times(&[2, 4, 4, 4, 5, 5, 7, 9]),
        Some(AnswerTimedEvaluator::new(5, 2))
    );
    // mean 1.5 rounds down to 1, variance 0.25 to a deviation of 0
    assert_eq!(norms_of_times(&[1, 2]), Some(AnswerTimedEvaluator::new(1, 0)));
    // variance 8/3, deviation 1.63
    assert_eq!(norms_of_times(&[1, 3, 5]), Some(AnswerTimedEvaluator::new(3, 1)));
}

#[test]
fn test_norms_of_longest_times() {
    assert_eq!(
        norms_of_times(&[u32::MAX, u32::MAX]),
        Some(AnswerTimedEvaluator::new(u32::MAX, 0))
    );
    assert_eq!(
        norms_of_times(&[0, u32::MAX]),
        Some(AnswerTimedEvaluator::new(u32::MAX / 2, u32::MAX / 2))
    );
}

#[test]
fn test_integer_sqrt_rounds_down() {
    assert_eq!(integer_sqrt(0), 0);
    assert_eq!(integer_sqrt(1), 1);
    assert_eq!(integer_sqrt(3), 1);
    assert_eq!(integer_sqrt(4), 2);
    assert_eq!(integer_sqrt(99), 9);
    assert_eq!(integer_sqrt(100), 10);
    assert_eq!(integer_sqrt(1 << 64), 1 << 32);
    assert_eq!(integer_sqrt((1 << 64) - 1), (1 << 32) - 1);
    assert_eq!(integer_sqrt(u128::MAX), u64::MAX);
    let big: u128 = 123_456_789_012_345;
    assert_eq!(integer_sqrt(big * big), big as u64);
    assert_eq!(integer_sqrt(big * big - 1), big as u64 - 1);
}
