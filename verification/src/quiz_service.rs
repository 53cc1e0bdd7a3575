//! The course of one answer: checking it, grading it against the norms of
//! its kind, advancing the schedule of its question, and summing a block up.
//!
//! The service computes on plain values. Whoever runs it reads the store
//! and the clock beforehand and writes what the service hands back.

use crate::answer_evaluator_service::AnswerEvaluatorService;
use crate::deck::DeckSummary;
use crate::review_items::{due_in_order, get_due};
use crate::operations::{result_fits, Operation, OperationType};
use crate::calendar::SECONDS_PER_DAY;
use crate::spaced_repetition::{
    next_interval, AnswerTimedEvaluator, QualityGrade, ReviewItem, ReviewScheduler,
};
use vstd::prelude::*;
use vstd::string::*;

verus! {

/// A question as it is stored.
#[derive(Debug, PartialEq, Eq)]
pub struct OperationRecord {
    pub id: i64,
    pub operation_type: String,
    pub operand1: i32,
    pub operand2: i32,
    pub result: i32,
}

impl OperationRecord {
    /// The question that the record stands for: its kind read back from the
    /// stored name, its value computed anew, its id kept. A record with an
    /// unknown kind, or whose value does not fit, stands for none.
    pub open spec fn question(self) -> Option<Operation> {
        match OperationType::named(self.operation_type@) {
            Some(kind) => if result_fits(kind, self.operand1 as int, self.operand2 as int) {
                Some(
                    Operation {
                        id: Some(self.id),
                        operation_type: kind,
                        operand1: self.operand1,
                        operand2: self.operand2,
                        result: kind.apply(self.operand1 as int, self.operand2 as int) as i32,
                    },
                )
            } else {
                None
            },
            None => None,
        }
    }

    /// Builds the question that the record stands for.
    pub fn to_operation(&self) -> (op: Option<Operation>)
        ensures
            op == self.question(),
    {
        match OperationType::from_str(self.operation_type.as_str()) {
            Some(kind) => match Operation::checked_new(kind, self.operand1, self.operand2) {
                Some(fresh) => Some(
                    Operation {
                        id: Some(self.id),
                        operation_type: fresh.operation_type,
                        operand1: fresh.operand1,
                        operand2: fresh.operand2,
                        result: fresh.result,
                    },
                ),
                None => None,
            },
            None => None,
        }
    }
}

/// The questions that a run of looked-up records stands for, in the order
/// of the records. A lookup that found nothing, and a record that stands
/// for no question, are passed over.
pub open spec fn questions_of(records: Seq<Option<OperationRecord>>) -> Seq<Operation>
    decreases records.len(),
{
    if records.len() == 0 {
        Seq::empty()
    } else {
        let earlier = questions_of(records.drop_last());
        match records.last() {
            Some(record) => match record.question() {
                Some(op) => earlier.push(op),
                None => earlier,
            },
            None => earlier,
        }
    }
}

/// The first of the records that is stored under `id`, if one is.
pub open spec fn record_with_id(operations: Seq<OperationRecord>, id: i64) -> Option<
    OperationRecord,
>
    decreases operations.len(),
{
    if operations.len() == 0 {
        None
    } else if operations[0].id == id {
        Some(operations[0])
    } else {
        record_with_id(operations.drop_first(), id)
    }
}

/// The questions of a run of schedules, in the order of the schedules,
/// each looked up among the stored records by the id of its question. A
/// schedule whose question is not stored, or whose record stands for no
/// question, is passed over.
pub open spec fn questions_for(schedules: Seq<ReviewItem>, operations: Seq<OperationRecord>) -> Seq<
    Operation,
>
    decreases schedules.len(),
{
    if schedules.len() == 0 {
        Seq::empty()
    } else {
        let earlier = questions_for(schedules.drop_last(), operations);
        match record_with_id(operations, schedules.last().operation_id) {
            Some(record) => match record.question() {
                Some(op) => earlier.push(op),
                None => earlier,
            },
            None => earlier,
        }
    }
}

/// The questions to ask again at the instant `now`: those of the schedules
/// that are due, the one that is due longest first.
pub open spec fn due_questions(
    schedules: Seq<ReviewItem>,
    operations: Seq<OperationRecord>,
    now: i64,
) -> Seq<Operation> {
    questions_for(due_in_order(schedules, now), operations)
}

/// No more questions come back than there are schedules, and each is a
/// stored one.
pub proof fn lemma_questions_for(schedules: Seq<ReviewItem>, operations: Seq<OperationRecord>)
    ensures
        questions_for(schedules, operations).len() <= schedules.len(),
        forall|i: int|
            0 <= i < questions_for(schedules, operations).len() ==> (#[trigger] questions_for(
                schedules,
                operations,
            )[i]).id is Some,
    decreases schedules.len(),
{
    if schedules.len() > 0 {
        lemma_questions_for(schedules.drop_last(), operations);
    }
}

/// One answered question of a block.
#[derive(Debug, Clone, Copy)]
pub struct QuestionResult {
    pub operation: Operation,
    pub user_answer: i32,
    pub is_correct: bool,
    /// The time the answer took, in milliseconds.
    pub time_spent: u32,
    /// Whether the question came from the schedule rather than fresh.
    pub is_review: bool,
    pub original_operation_id: Option<i64>,
    /// The grade of the answer, once it is graded.
    pub grade: Option<QualityGrade>,
    /// When the question is due again, once it is scheduled.
    pub next_review_date: Option<i64>,
}

impl QuestionResult {
    /// The result of answering `question` with `user_answer` in
    /// `time_spent` milliseconds, not yet graded.
    pub open spec fn answered(question: Operation, user_answer: i32, time_spent: u32) -> Self {
        QuestionResult {
            operation: question,
            user_answer,
            is_correct: question.result == user_answer,
            time_spent,
            is_review: question.id is Some,
            original_operation_id: question.id,
            grade: None,
            next_review_date: None,
        }
    }

    /// The same result with its grade and the next due date filled in.
    pub open spec fn graded(self, grade: QualityGrade, next_review_date: i64) -> Self {
        QuestionResult {
            operation: self.operation,
            user_answer: self.user_answer,
            is_correct: self.is_correct,
            time_spent: self.time_spent,
            is_review: self.is_review,
            original_operation_id: self.original_operation_id,
            grade: Some(grade),
            next_review_date: Some(next_review_date),
        }
    }

    /// The grade that the answer earns under the norms that `history`
    /// yields.
    pub open spec fn earned_grade(self, history: Option<AnswerTimedEvaluator>) -> QualityGrade {
        AnswerEvaluatorService::norms_for(history).grade(self.is_correct, self.time_spent as int)
    }
}

/// Correctness and time of each result, as a deck's summary takes them.
pub open spec fn outcomes(results: Seq<QuestionResult>) -> Seq<(bool, u32)> {
    results.map_values(|r: QuestionResult| (r.is_correct, r.time_spent))
}

/// The text that names a grade.
pub open spec fn quality_label(quality: QualityGrade) -> Seq<char> {
    match quality {
        QualityGrade::Blackout => "Grade0 (Incorrect)"@,
        QualityGrade::SeriousDifficulty => "Grade3 (Serious difficulty)"@,
        QualityGrade::Hesitation => "Grade4 (After hesitation)"@,
        QualityGrade::Perfect => "Grade5 (Perfect)"@,
    }
}

/// Grades answers and schedules their questions.
#[derive(Debug, Clone, Copy)]
pub struct QuizService {
    scheduler: ReviewScheduler,
    evaluator_service: AnswerEvaluatorService,
}

impl QuizService {
    /// Whether the answer `result` can be recorded against `item` at `now`:
    /// the schedule that its grade leads to fits the item's fields and the
    /// next due date fits an instant.
    pub open spec fn can_record(
        result: QuestionResult,
        item: ReviewItem,
        history: Option<AnswerTimedEvaluator>,
        now: i64,
    ) -> bool {
        let grade = result.earned_grade(history);
        &&& item.can_advance(grade)
        &&& now + next_interval(
            item.repetitions as int,
            item.interval as int,
            item.ease_factor as int,
            grade,
        ) * SECONDS_PER_DAY <= i64::MAX
    }

    pub fn new() -> (service: Self) {
        QuizService {
            scheduler: ReviewScheduler::new(),
            evaluator_service: AnswerEvaluatorService::new(),
        }
    }

    /// Checks an answer against the question's value. The result is a
    /// review if the question is a stored one; it is not graded yet.
    pub fn process_answer(&self, question: &Operation, user_answer: i32, time_spent: u32) -> (result:
        QuestionResult)
        ensures
            result == QuestionResult::answered(*question, user_answer, time_spent),
    {
        QuestionResult {
            operation: *question,
            user_answer,
            is_correct: question.check_answer(user_answer),
            time_spent,
            is_review: question.id.is_some(),
            original_operation_id: question.id,
            grade: None,
            next_review_date: None,
        }
    }

    /// Decides `can_record`.
    pub fn check_record(
        &self,
        result: &QuestionResult,
        item: &ReviewItem,
        history: Option<AnswerTimedEvaluator>,
        now: i64,
    ) -> (possible: bool)
        ensures
            possible == Self::can_record(*result, *item, history, now),
    {
        let norms = self.evaluator_service.get_evaluator(history);
        let quality = norms.evaluate_performance(result.is_correct, result.time_spent);
        if !self.scheduler.can_process(item, quality) {
            return false;
        }
        let days: i64 = Self::interval_after(item, quality) as i64;
        now <= i64::MAX - days * SECONDS_PER_DAY
    }

    /// The interval that follows, where `can_process` holds.
    fn interval_after(item: &ReviewItem, quality: QualityGrade) -> (days: i32)
        requires
            item.can_advance(quality),
        ensures
            days == next_interval(
                item.repetitions as int,
                item.interval as int,
                item.ease_factor as int,
                quality,
            ),
            days >= 0,
    {
        let scheduler = ReviewScheduler::new();
        let next = scheduler.advance(item, quality, 0);
        next.1
    }

    /// Records the answer `result` against the schedule `item` of its
    /// question at the instant `now`: grades the answer under the norms
    /// that `history` yields (the fallback norms where it yields none),
    /// advances the schedule by the grade and notes `now` as its last
    /// review. Returns the result with the grade and the new due date
    /// filled in, and the schedule to store.
    pub fn record_review(
        &self,
        result: &QuestionResult,
        item: &ReviewItem,
        history: Option<AnswerTimedEvaluator>,
        now: i64,
    ) -> (recorded: (QuestionResult, ReviewItem))
        requires
            Self::can_record(*result, *item, history, now),
        ensures
            recorded.1 == item.reviewed(result.earned_grade(history), now),
            recorded.0 == result.graded(result.earned_grade(history), recorded.1.next_review_date),
            recorded.1.ease_factor >= crate::spaced_repetition::MIN_EASE_FACTOR,
    {
        let norms = self.evaluator_service.get_evaluator(history);
        let quality = norms.evaluate_performance(result.is_correct, result.time_spent);
        let (repetitions, interval, ease_factor, next_review_date) = self.scheduler.advance(
            item,
            quality,
            now,
        );
        let updated = ReviewItem {
            id: item.id,
            operation_id: item.operation_id,
            repetitions,
            interval,
            ease_factor,
            next_review_date,
            last_reviewed_date: Some(now),
        };
        let graded = QuestionResult {
            operation: result.operation,
            user_answer: result.user_answer,
            is_correct: result.is_correct,
            time_spent: result.time_spent,
            is_review: result.is_review,
            original_operation_id: result.original_operation_id,
            grade: Some(quality),
            next_review_date: Some(next_review_date),
        };
        (graded, updated)
    }

    /// Records the first answer to a question that was just stored under
    /// `operation_id`: as `record_review` against the initial schedule.
    pub fn record_new_question(
        &self,
        result: &QuestionResult,
        operation_id: i64,
        history: Option<AnswerTimedEvaluator>,
        now: i64,
    ) -> (recorded: (QuestionResult, ReviewItem))
        requires
            now <= i64::MAX - SECONDS_PER_DAY,
        ensures
            Self::can_record(*result, ReviewItem::initial(operation_id, now), history, now),
            recorded.1 == ReviewItem::initial(operation_id, now).reviewed(
                result.earned_grade(history),
                now,
            ),
            recorded.0 == result.graded(result.earned_grade(history), recorded.1.next_review_date),
            recorded.1.interval == 1,
    {
        let item = ReviewItem::first(operation_id, now);
        self.record_review(result, &item, history, now)
    }

    /// Sums a block's results up.
    pub fn complete_deck(&self, results: &[QuestionResult]) -> (summary: DeckSummary)
        requires
            results@.len() <= i32::MAX,
        ensures
            summary == DeckSummary::of(outcomes(results@)),
    {
        let mut data: Vec<(bool, u32)> = Vec::new();
        let mut i: usize = 0;
        while i < results.len()
            invariant
                i <= results@.len(),
                data@ =~= outcomes(results@.take(i as int)),
            decreases results@.len() - i,
        {
            data.push((results[i].is_correct, results[i].time_spent));
            i = i + 1;
        }
        proof {
            assert(results@.take(results@.len() as int) =~= results@);
        }
        DeckSummary::from_results(data.as_slice())
    }

    /// Finds the record that is stored under `id`.
    fn find_record(operations: &[OperationRecord], id: i64) -> (found: Option<usize>)
        ensures
            match found {
                Some(at) => at < operations@.len() && record_with_id(operations@, id) == Some(
                    operations@[at as int],
                ),
                None => record_with_id(operations@, id) is None,
            },
    {
        let mut at: usize = 0;
        proof {
            assert(operations@.skip(0) =~= operations@);
        }
        while at < operations.len()
            invariant
                at <= operations@.len(),
                record_with_id(operations@, id) == record_with_id(operations@.skip(at as int), id),
            decreases operations@.len() - at,
        {
            proof {
                let rest = operations@.skip(at as int);
                assert(rest.drop_first() =~= operations@.skip(at as int + 1));
            }
            if operations[at].id == id {
                return Some(at);
            }
            at = at + 1;
        }
        None
    }

    /// The questions to ask again at the instant `now`, from the stored
    /// schedules and the stored questions: the questions of the schedules
    /// that are due, the one that is due longest first, schedules that are
    /// due at the same instant in the order in which they are stored.
    pub fn due_reviews(
        &self,
        schedules: &[ReviewItem],
        operations: &[OperationRecord],
        now: i64,
    ) -> (questions: Vec<Operation>)
        ensures
            questions@ == due_questions(schedules@, operations@, now),
    {
        let due = get_due(schedules, now);
        let mut questions: Vec<Operation> = Vec::new();
        let mut i: usize = 0;
        while i < due.len()
            invariant
                i <= due.len(),
                questions@ == questions_for(due@.take(i as int), operations@),
            decreases due.len() - i,
        {
            proof {
                assert(due@.take(i as int + 1).drop_last() =~= due@.take(i as int));
            }
            match Self::find_record(operations, due[i].operation_id) {
                Some(at) => match operations[at].to_operation() {
                    Some(op) => {
                        questions.push(op);
                    },
                    None => {},
                },
                None => {},
            }
            i = i + 1;
        }
        proof {
            assert(due@.take(due.len() as int) =~= due@);
        }
        questions
    }

    /// Turns the records that were looked up for the due schedules, in
    /// their order, into the questions to ask again.
    pub fn fetch_due_reviews(&self, records: &Vec<Option<OperationRecord>>) -> (questions: Vec<
        Operation,
    >)
        ensures
            questions@ == questions_of(records@),
    {
        let mut questions: Vec<Operation> = Vec::new();
        let mut i: usize = 0;
        while i < records.len()
            invariant
                i <= records.len(),
                questions@ == questions_of(records@.take(i as int)),
            decreases records.len() - i,
        {
            proof {
                assert(records@.take(i as int + 1).drop_last() =~= records@.take(i as int));
            }
            match &records[i] {
                Some(record) => match record.to_operation() {
                    Some(op) => {
                        questions.push(op);
                    },
                    None => {},
                },
                None => {},
            }
            i = i + 1;
        }
        proof {
            assert(records@.take(records.len() as int) =~= records@);
        }
        questions
    }

    pub fn quality_to_string(quality: QualityGrade) -> (label: String)
        ensures
            label@ == quality_label(quality),
    {
        match quality {
            QualityGrade::Blackout => "Grade0 (Incorrect)".to_owned(),
            QualityGrade::SeriousDifficulty => "Grade3 (Serious difficulty)".to_owned(),
            QualityGrade::Hesitation => "Grade4 (After hesitation)".to_owned(),
            QualityGrade::Perfect => "Grade5 (Perfect)".to_owned(),
        }
    }
}

} // verus!
