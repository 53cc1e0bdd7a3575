//! Storing an answered question, step by step.
//!
//! The service decides and the caller acts: the caller hands in what the
//! store answered to the last request and is told what to ask of it next,
//! until the result is final. A store that fails at a step ends the run
//! there; what was stored before stays stored, and the result comes back
//! as far as it got.

use crate::operations::OperationType;
use crate::quiz_service::{QuestionResult, QuizService};
use crate::spaced_repetition::{AnswerTimedEvaluator, ReviewItem};
use vstd::prelude::*;

verus! {

/// What the caller is to do next.
#[derive(Debug, Clone, Copy)]
pub enum StoreRequest {
    /// Store the question and answer with the id it got.
    InsertOperation {
        operation_type: OperationType,
        operand1: i32,
        operand2: i32,
        result: i32,
        deck_id: i64,
    },
    /// Store the answer and say whether that worked.
    InsertAnswer {
        operation_id: i64,
        user_answer: i32,
        is_correct: bool,
        time_spent: u32,
        deck_id: i64,
    },
    /// Look up the schedule of the question.
    GetReviewItem { operation_id: i64 },
    /// Look up the norms of the kind of question, and read the clock.
    GetEvaluator { operation_type: OperationType },
    /// Open a schedule for the question and answer with the id it got.
    InsertReviewItem { operation_id: i64, next_review_date: i64 },
    /// Write the schedule.
    UpdateReviewItem { item: ReviewItem },
    /// Nothing more: the result is final.
    Finished { outcome: QuestionResult },
}

/// What the store answered to the last request.
#[derive(Debug, Clone, Copy)]
pub enum StoreReply {
    /// Nothing was asked yet.
    Ready,
    /// The id of the stored question, or `None` where storing failed.
    OperationInserted(Option<i64>),
    /// Whether the answer was stored.
    AnswerInserted(bool),
    /// The schedule of the question, or `None` where there is none or the
    /// lookup failed.
    ReviewItem(Option<ReviewItem>),
    /// The norms that the history of the kind yields, if it yields any,
    /// and the clock's reading.
    Evaluator { history: Option<AnswerTimedEvaluator>, now: i64 },
    /// The id of the opened schedule, or `None` where opening failed.
    ReviewItemInserted(Option<i64>),
    /// The schedule was written, or writing failed.
    ReviewItemUpdated,
}

/// How far the storing of one result has got.
#[derive(Debug, Clone, Copy)]
pub enum PersistStage {
    /// Nothing was asked yet.
    Start,
    /// The question is being stored.
    InsertingOperation,
    /// The answer is being stored under the question's id.
    InsertingAnswer { operation_id: i64 },
    /// The schedule of the question is being looked up.
    LoadingReviewItem,
    /// The norms are being looked up to grade against `item`; `is_new`
    /// says that `item` is the schedule of a new question and not stored.
    Grading { item: ReviewItem, is_new: bool },
    /// The schedule of a new question is being opened.
    InsertingReviewItem { graded: QuestionResult, item: ReviewItem },
    /// The schedule is being written.
    UpdatingReviewItem { graded: QuestionResult },
    /// The result is final.
    Done,
}

impl PersistStage {
    /// How many requests can still follow at most.
    pub open spec fn steps_left(self) -> nat {
        match self {
            PersistStage::Start => 6,
            PersistStage::InsertingOperation => 5,
            PersistStage::InsertingAnswer { .. } => 4,
            PersistStage::LoadingReviewItem => 3,
            PersistStage::Grading { .. } => 2,
            PersistStage::InsertingReviewItem { .. } => 1,
            PersistStage::UpdatingReviewItem { .. } => 0,
            PersistStage::Done => 0,
        }
    }
}

/// The request that stores the answer of `result` under `operation_id`.
pub open spec fn answer_request(result: QuestionResult, operation_id: i64, deck_id: i64)
    -> StoreRequest {
    StoreRequest::InsertAnswer {
        operation_id,
        user_answer: result.user_answer,
        is_correct: result.is_correct,
        time_spent: result.time_spent,
        deck_id,
    }
}

/// The end of a run: nothing more is asked, and `result` is final.
pub open spec fn finished(result: QuestionResult) -> (PersistStage, StoreRequest) {
    (PersistStage::Done, StoreRequest::Finished { outcome: result })
}

/// The step that follows in the storing of `result` in the deck `deck_id`,
/// at `stage` and on the reply `reply`: the next stage, and what to ask.
///
/// A review stores its answer under the id its question has, looks the
/// schedule up and grades against it; a new question is stored first, and
/// graded against the initial schedule. Grading takes the norms and the
/// clock, advances the schedule and hands it out to be written, for a new
/// question after a schedule was opened for it. The result is final, and
/// ungraded, as soon as a step fails, a reply does not answer the request,
/// or the new schedule would not fit its fields; it is final and graded
/// once the schedule was handed out.
pub open spec fn next_step(
    result: QuestionResult,
    deck_id: i64,
    stage: PersistStage,
    reply: StoreReply,
) -> (PersistStage, StoreRequest) {
    match (stage, reply) {
        (PersistStage::Start, StoreReply::Ready) => if result.is_review {
            match result.original_operation_id {
                Some(operation_id) => (
                    PersistStage::InsertingAnswer { operation_id },
                    answer_request(result, operation_id, deck_id),
                ),
                None => finished(result),
            }
        } else {
            (
                PersistStage::InsertingOperation,
                StoreRequest::InsertOperation {
                    operation_type: result.operation.operation_type,
                    operand1: result.operation.operand1,
                    operand2: result.operation.operand2,
                    result: result.operation.result,
                    deck_id,
                },
            )
        },
        (PersistStage::InsertingOperation, StoreReply::OperationInserted(Some(operation_id))) => (
            PersistStage::InsertingAnswer { operation_id },
            answer_request(result, operation_id, deck_id),
        ),
        (PersistStage::InsertingAnswer { operation_id }, StoreReply::AnswerInserted(true)) => {
            if result.is_review {
                (PersistStage::LoadingReviewItem, StoreRequest::GetReviewItem { operation_id })
            } else {
                (
                    PersistStage::Grading {
                        item: ReviewItem::initial(operation_id, 0),
                        is_new: true,
                    },
                    StoreRequest::GetEvaluator { operation_type: result.operation.operation_type },
                )
            }
        },
        (PersistStage::LoadingReviewItem, StoreReply::ReviewItem(Some(item))) => (
            PersistStage::Grading { item, is_new: false },
            StoreRequest::GetEvaluator { operation_type: result.operation.operation_type },
        ),
        (PersistStage::Grading { item, is_new }, StoreReply::Evaluator { history, now }) => {
            let state = if is_new {
                ReviewItem::initial(item.operation_id, now)
            } else {
                item
            };
            if QuizService::can_record(result, state, history, now) {
                let grade = result.earned_grade(history);
                let updated = state.reviewed(grade, now);
                let graded = result.graded(grade, updated.next_review_date);
                if is_new {
                    (
                        PersistStage::InsertingReviewItem { graded, item: updated },
                        StoreRequest::InsertReviewItem {
                            operation_id: updated.operation_id,
                            next_review_date: updated.next_review_date,
                        },
                    )
                } else {
                    (
                        PersistStage::UpdatingReviewItem { graded },
                        StoreRequest::UpdateReviewItem { item: updated },
                    )
                }
            } else {
                finished(result)
            }
        },
        (
            PersistStage::InsertingReviewItem { graded, item },
            StoreReply::ReviewItemInserted(Some(id)),
        ) => (
            PersistStage::UpdatingReviewItem { graded },
            StoreRequest::UpdateReviewItem { item: item.stored_as(id) },
        ),
        (PersistStage::InsertingReviewItem { graded, item }, _) => finished(graded),
        (PersistStage::UpdatingReviewItem { graded }, _) => finished(graded),
        _ => finished(result),
    }
}

impl QuizService {
    /// Takes the store's reply to the last request and says what to ask
    /// next, as `next_step` lays down. A run starts at
    /// `PersistStage::Start` with `StoreReply::Ready` and ends with
    /// `StoreRequest::Finished`.
    pub fn persist_step(
        &self,
        result: &QuestionResult,
        deck_id: i64,
        stage: PersistStage,
        reply: StoreReply,
    ) -> (step: (PersistStage, StoreRequest))
        ensures
            step == next_step(*result, deck_id, stage, reply),
            step.1 is Finished <==> step.0 is Done,
            !(step.0 is Done) ==> step.0.steps_left() < stage.steps_left(),
    {
        let done = (PersistStage::Done, StoreRequest::Finished { outcome: *result });
        match stage {
            PersistStage::Start => match reply {
                StoreReply::Ready => {
                    if result.is_review {
                        match result.original_operation_id {
                            Some(operation_id) => (
                                PersistStage::InsertingAnswer { operation_id },
                                Self::ask_answer(result, operation_id, deck_id),
                            ),
                            None => done,
                        }
                    } else {
                        (
                            PersistStage::InsertingOperation,
                            StoreRequest::InsertOperation {
                                operation_type: result.operation.operation_type,
                                operand1: result.operation.operand1,
                                operand2: result.operation.operand2,
                                result: result.operation.result,
                                deck_id,
                            },
                        )
                    }
                },
                _ => done,
            },
            PersistStage::InsertingOperation => match reply {
                StoreReply::OperationInserted(Some(operation_id)) => (
                    PersistStage::InsertingAnswer { operation_id },
                    Self::ask_answer(result, operation_id, deck_id),
                ),
                _ => done,
            },
            PersistStage::InsertingAnswer { operation_id } => match reply {
                StoreReply::AnswerInserted(true) => {
                    if result.is_review {
                        (
                            PersistStage::LoadingReviewItem,
                            StoreRequest::GetReviewItem { operation_id },
                        )
                    } else {
                        (
                            PersistStage::Grading {
                                item: ReviewItem::first(operation_id, 0),
                                is_new: true,
                            },
                            StoreRequest::GetEvaluator {
                                operation_type: result.operation.operation_type,
                            },
                        )
                    }
                },
                _ => done,
            },
            PersistStage::LoadingReviewItem => match reply {
                StoreReply::ReviewItem(Some(item)) => (
                    PersistStage::Grading { item, is_new: false },
                    StoreRequest::GetEvaluator { operation_type: result.operation.operation_type },
                ),
                _ => done,
            },
            PersistStage::Grading { item, is_new } => match reply {
                StoreReply::Evaluator { history, now } => {
                    let state = if is_new {
                        ReviewItem::first(item.operation_id, now)
                    } else {
                        item
                    };
                    if self.check_record(result, &state, history, now) {
                        let (graded, updated) = self.record_review(result, &state, history, now);
                        if is_new {
                            (
                                PersistStage::InsertingReviewItem { graded, item: updated },
                                StoreRequest::InsertReviewItem {
                                    operation_id: updated.operation_id,
                                    next_review_date: updated.next_review_date,
                                },
                            )
                        } else {
                            (
                                PersistStage::UpdatingReviewItem { graded },
                                StoreRequest::UpdateReviewItem { item: updated },
                            )
                        }
                    } else {
                        done
                    }
                },
                _ => done,
            },
            PersistStage::InsertingReviewItem { graded, item } => match reply {
                StoreReply::ReviewItemInserted(Some(id)) => (
                    PersistStage::UpdatingReviewItem { graded },
                    StoreRequest::UpdateReviewItem { item: item.with_id(id) },
                ),
                _ => (PersistStage::Done, StoreRequest::Finished { outcome: graded }),
            },
            PersistStage::UpdatingReviewItem { graded } => (
                PersistStage::Done,
                StoreRequest::Finished { outcome: graded },
            ),
            PersistStage::Done => done,
        }
    }

    fn ask_answer(result: &QuestionResult, operation_id: i64, deck_id: i64) -> (request:
        StoreRequest)
        ensures
            request == answer_request(*result, operation_id, deck_id),
    {
        StoreRequest::InsertAnswer {
            operation_id,
            user_answer: result.user_answer,
            is_correct: result.is_correct,
            time_spent: result.time_spent,
            deck_id,
        }
    }
}

/// Whether `graded` is `result` with a grade and a due date filled in and
/// nothing else changed.
pub open spec fn is_grading_of(graded: QuestionResult, result: QuestionResult) -> bool {
    &&& graded.grade is Some
    &&& graded.next_review_date is Some
    &&& graded == result.graded(graded.grade->0, graded.next_review_date->0)
}

/// Whether the result that a stage carries, if it carries one, is a grading
/// of `result`.
pub open spec fn carries_grading_of(stage: PersistStage, result: QuestionResult) -> bool {
    match stage {
        PersistStage::InsertingReviewItem { graded, .. } => is_grading_of(graded, result),
        PersistStage::UpdatingReviewItem { graded } => is_grading_of(graded, result),
        _ => true,
    }
}

/// A run never changes what was answered: every stage that carries a result
/// carries a grading of the result that came in, and the result that is
/// handed out as final is that result untouched or a grading of it.
pub proof fn lemma_step_keeps_result(
    result: QuestionResult,
    deck_id: i64,
    stage: PersistStage,
    reply: StoreReply,
)
    requires
        carries_grading_of(stage, result),
    ensures
        carries_grading_of(next_step(result, deck_id, stage, reply).0, result),
        next_step(result, deck_id, stage, reply).1 matches StoreRequest::Finished { outcome: last }
            ==> last == result || is_grading_of(last, result),
{
}

/// A run is over after six requests at most: every step that does not end
/// it leaves fewer steps to go.
pub proof fn lemma_step_advances(
    result: QuestionResult,
    deck_id: i64,
    stage: PersistStage,
    reply: StoreReply,
)
    ensures
        next_step(result, deck_id, stage, reply).1 is Finished <==> next_step(
            result,
            deck_id,
            stage,
            reply,
        ).0 is Done,
        !(next_step(result, deck_id, stage, reply).0 is Done) ==> next_step(
            result,
            deck_id,
            stage,
            reply,
        ).0.steps_left() < stage.steps_left(),
{
}

} // verus!
