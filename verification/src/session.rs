//! The course of a practice block: composing it from the questions that are
//! due and fresh ones, taking the answers one by one, and knowing when the
//! block is over.
//!
//! The session holds no store and no clock. Its caller creates and closes
//! decks, looks up what is due, measures the time an answer took, and hands
//! all of that in.

use crate::operations::{generate_question_block, Operation};
use crate::quiz_service::{due_questions, OperationRecord, QuestionResult, QuizService};
use crate::spaced_repetition::ReviewItem;
use crate::text::{parse_i32, parsed_i32};
use vstd::prelude::*;
use vstd::string::*;

verus! {

/// What the session shows.
#[derive(Debug, Clone, Copy, PartialEq, Eq, Structural)]
pub enum AppState {
    /// A block is being answered.
    ShowingQuestions,
    /// No block is open: the last one, if any, is over.
    ShowingResults,
}

/// What became of a submitted answer.
#[derive(Debug, Clone, Copy, PartialEq, Eq, Structural)]
pub enum SubmitOutcome {
    /// Nothing was taken: no question is open, or the answer is no number.
    Ignored,
    /// The answer was taken and the next question is open.
    NextQuestion,
    /// The answer was taken and it was the block's last.
    BlockCompleted,
}

/// A session as contracts see it.
pub struct SessionView {
    pub questions: Seq<Operation>,
    /// The index of the open question; the number of questions when none is.
    pub current: nat,
    /// What was typed for each question so far.
    pub answers: Seq<Seq<char>>,
    pub results: Seq<QuestionResult>,
    pub state: AppState,
    pub deck_id: Option<i64>,
    pub questions_per_block: nat,
}

impl SessionView {
    /// The deck that is left unfinished, if one is.
    pub open spec fn open_deck(self) -> Option<i64> {
        if self.state != AppState::ShowingResults {
            self.deck_id
        } else {
            None
        }
    }

    /// The number typed for the open question, if a question is open and
    /// what is typed for it is a number.
    pub open spec fn typed_answer(self) -> Option<i32> {
        if self.current < self.questions.len() && self.current < self.answers.len() {
            parsed_i32(self.answers[self.current as int])
        } else {
            None
        }
    }

    /// The session with `answer` typed for the question `index`, if there
    /// is such a question.
    pub open spec fn typed(self, index: int, answer: Seq<char>) -> SessionView {
        SessionView {
            questions: self.questions,
            current: self.current,
            answers: if 0 <= index < self.answers.len() {
                self.answers.update(index, answer)
            } else {
                self.answers
            },
            results: self.results,
            state: self.state,
            deck_id: self.deck_id,
            questions_per_block: self.questions_per_block,
        }
    }

    /// The session with its results replaced.
    pub open spec fn with_results(self, results: Seq<QuestionResult>) -> SessionView {
        SessionView {
            questions: self.questions,
            current: self.current,
            answers: self.answers,
            results,
            state: self.state,
            deck_id: self.deck_id,
            questions_per_block: self.questions_per_block,
        }
    }

    /// The session once the open question was answered with `answer` in
    /// `time_spent` milliseconds.
    pub open spec fn answered(self, answer: i32, time_spent: u32) -> SessionView {
        let result = QuestionResult::answered(
            self.questions[self.current as int],
            answer,
            time_spent,
        );
        SessionView {
            questions: self.questions,
            current: self.current + 1,
            answers: self.answers,
            results: self.results.push(result),
            state: if self.current + 1 >= self.questions.len() {
                AppState::ShowingResults
            } else {
                self.state
            },
            deck_id: self.deck_id,
            questions_per_block: self.questions_per_block,
        }
    }
}

/// A practice session: the block that is open, how far it is answered and
/// what was answered.
pub struct MemoryPracticeApp {
    service: QuizService,
    questions: Vec<Operation>,
    current_question_index: usize,
    user_answers: Vec<String>,
    results: Vec<QuestionResult>,
    state: AppState,
    current_deck_id: Option<i64>,
    questions_per_block: usize,
}

impl View for MemoryPracticeApp {
    type V = SessionView;

    closed spec fn view(&self) -> SessionView {
        SessionView {
            questions: self.questions@,
            current: self.current_question_index as nat,
            answers: self.user_answers@.map_values(|answer: String| answer@),
            results: self.results@,
            state: self.state,
            deck_id: self.current_deck_id,
            questions_per_block: self.questions_per_block as nat,
        }
    }
}

/// `count` answers with nothing typed yet.
fn blank_answers(count: usize) -> (answers: Vec<String>)
    ensures
        answers.len() == count,
        forall|i: int| 0 <= i < count ==> (#[trigger] answers[i])@ == Seq::<char>::empty(),
{
    let mut answers: Vec<String> = Vec::new();
    let mut made: usize = 0;
    while made < count
        invariant
            made <= count,
            answers.len() == made,
            forall|i: int| 0 <= i < made ==> (#[trigger] answers[i])@ == Seq::<char>::empty(),
        decreases count - made,
    {
        answers.push(String::new());
        made = made + 1;
    }
    answers
}

/// Composes a block of `target` questions: the due ones first and in their
/// order, as many as fit, then fresh ones to fill the block.
pub fn compose_block(due: Vec<Operation>, target: usize) -> (block: Vec<Operation>)
    ensures
        block.len() == target,
        forall|i: int| 0 <= i < target && i < due.len() ==> block[i] == due[i],
        forall|i: int| due.len() <= i < target ==> (#[trigger] block[i]).is_fresh(),
{
    let mut block = due;
    if block.len() < target {
        let missing = target - block.len();
        let mut fresh = generate_question_block(missing);
        block.append(&mut fresh);
    }
    block.truncate(target);
    block
}

impl MemoryPracticeApp {
    #[verifier::type_invariant]
    spec fn well_formed(self) -> bool {
        &&& self.user_answers.len() == self.questions.len()
        &&& self.current_question_index <= self.questions.len()
    }

    /// A session without a block, for blocks of `questions_per_block`
    /// questions.
    pub fn new(questions_per_block: usize) -> (app: Self)
        ensures
            app@.questions.len() == 0,
            app@.current == 0,
            app@.answers.len() == 0,
            app@.results.len() == 0,
            app@.state == AppState::ShowingResults,
            app@.deck_id is None,
            app@.questions_per_block == questions_per_block,
    {
        Self {
            service: QuizService::new(),
            questions: Vec::new(),
            current_question_index: 0,
            user_answers: Vec::new(),
            results: Vec::new(),
            state: AppState::ShowingResults,
            current_deck_id: None,
            questions_per_block,
        }
    }

    /// The deck that a new block, or the end of the session, leaves
    /// unfinished and that is to be marked abandoned: the current one,
    /// unless its block was answered to the end.
    pub fn deck_to_abandon(&self) -> (deck_id: Option<i64>)
        ensures
            deck_id == self@.open_deck(),
    {
        match self.state {
            AppState::ShowingResults => None,
            AppState::ShowingQuestions => self.current_deck_id,
        }
    }

    /// Opens a new block under the deck `deck_id`, made of the `due`
    /// questions, oldest first as they are handed in, and of fresh ones.
    /// The block has exactly `questions_per_block` questions: the due ones
    /// come first and are cut only where they alone exceed the block; fresh
    /// ones fill what is left. Nothing is typed or answered yet, and the
    /// first question is open.
    pub fn start_new_block(&mut self, deck_id: Option<i64>, due: Vec<Operation>)
        ensures
            final(self)@.questions_per_block == old(self)@.questions_per_block,
            final(self)@.questions.len() == old(self)@.questions_per_block,
            forall|i: int|
                0 <= i < final(self)@.questions.len() && i < due.len()
                    ==> final(self)@.questions[i] == due[i],
            forall|i: int|
                due.len() <= i < final(self)@.questions.len()
                    ==> (#[trigger] final(self)@.questions[i]).is_fresh(),
            final(self)@.answers.len() == final(self)@.questions.len(),
            forall|i: int|
                0 <= i < final(self)@.answers.len() ==> (#[trigger] final(self)@.answers[i])
                    == Seq::<char>::empty(),
            final(self)@.current == 0,
            final(self)@.results.len() == 0,
            final(self)@.state == AppState::ShowingQuestions,
            final(self)@.deck_id == deck_id,
    {
        let target = self.questions_per_block;
        let questions = compose_block(due, target);
        let user_answers = blank_answers(target);
        *self = Self {
            service: self.service,
            questions,
            current_question_index: 0,
            user_answers,
            results: Vec::new(),
            state: AppState::ShowingQuestions,
            current_deck_id: deck_id,
            questions_per_block: target,
        };
    }

    /// Opens a new block under the deck `deck_id` at the instant `now`,
    /// from the stored schedules and the stored questions. The block has
    /// exactly `questions_per_block` questions. First come the questions
    /// that are due, the one that is due longest first, as many as the
    /// block takes; fresh questions fill what is left, so that no due
    /// question gives way to a fresh one.
    pub fn start_block(
        &mut self,
        deck_id: Option<i64>,
        schedules: &[ReviewItem],
        operations: &[OperationRecord],
        now: i64,
    )
        ensures
            final(self)@.questions_per_block == old(self)@.questions_per_block,
            final(self)@.questions.len() == old(self)@.questions_per_block,
            ({
                let due = due_questions(schedules@, operations@, now);
                let block = final(self)@.questions;
                &&& forall|i: int| 0 <= i < block.len() && i < due.len() ==> block[i] == due[i]
                &&& forall|i: int| due.len() <= i < block.len() ==> (#[trigger] block[i]).is_fresh()
            }),
            final(self)@.answers.len() == final(self)@.questions.len(),
            forall|i: int|
                0 <= i < final(self)@.answers.len() ==> (#[trigger] final(self)@.answers[i])
                    == Seq::<char>::empty(),
            final(self)@.current == 0,
            final(self)@.results.len() == 0,
            final(self)@.state == AppState::ShowingQuestions,
            final(self)@.deck_id == deck_id,
    {
        let due = self.service.due_reviews(schedules, operations, now);
        self.start_new_block(deck_id, due);
    }

    pub fn get_current_state(&self) -> (state: &AppState)
        ensures
            *state == self@.state,
    {
        &self.state
    }

    pub fn get_current_question_index(&self) -> (index: usize)
        ensures
            index == self@.current,
    {
        self.current_question_index
    }

    pub fn get_results(&self) -> (results: &[QuestionResult])
        ensures
            results@ == self@.results,
    {
        self.results.as_slice()
    }

    pub fn get_questions(&self) -> (questions: &[Operation])
        ensures
            questions@ == self@.questions,
    {
        self.questions.as_slice()
    }

    pub fn get_current_deck_id(&self) -> (deck_id: Option<i64>)
        ensures
            deck_id == self@.deck_id,
    {
        self.current_deck_id
    }

    pub fn get_questions_per_block(&self) -> (count: usize)
        ensures
            count == self@.questions_per_block,
    {
        self.questions_per_block
    }

    /// Takes the answer `answer`, given in `time_spent` milliseconds, for
    /// the open question. Without an open question nothing changes.
    /// Otherwise the answer is checked and kept as a result, and the next
    /// question is opened; after the last one the block is over.
    pub fn submit_value(&mut self, answer: i32, time_spent: u32) -> (outcome: SubmitOutcome)
        ensures
            old(self)@.current >= old(self)@.questions.len() ==> {
                &&& outcome == SubmitOutcome::Ignored
                &&& final(self)@ == old(self)@
            },
            old(self)@.current < old(self)@.questions.len() ==> {
                &&& final(self)@ == old(self)@.answered(answer, time_spent)
                &&& outcome == if old(self)@.current + 1 == old(self)@.questions.len() {
                    SubmitOutcome::BlockCompleted
                } else {
                    SubmitOutcome::NextQuestion
                }
            },
    {
        proof {
            use_type_invariant(&*self);
        }
        if self.current_question_index >= self.questions.len() {
            return SubmitOutcome::Ignored;
        }
        let result = self.service.process_answer(
            &self.questions[self.current_question_index],
            answer,
            time_spent,
        );
        let mut results: Vec<QuestionResult> = Vec::new();
        std::mem::swap(&mut results, &mut self.results);
        results.push(result);
        self.results = results;
        self.current_question_index = self.current_question_index + 1;
        if self.current_question_index >= self.questions.len() {
            self.state = AppState::ShowingResults;
            SubmitOutcome::BlockCompleted
        } else {
            SubmitOutcome::NextQuestion
        }
    }

    /// Notes what is typed for the question `index`; without such a
    /// question nothing changes.
    pub fn set_answer(&mut self, index: usize, answer: String)
        ensures
            final(self)@ == old(self)@.typed(index as int, answer@),
    {
        proof {
            use_type_invariant(&*self);
        }
        if index < self.user_answers.len() {
            let mut taken = Self::new(self.questions_per_block);
            std::mem::swap(self, &mut taken);
            proof {
                use_type_invariant(&taken);
            }
            let mut answers = taken.user_answers;
            let ghost before = answers@;
            answers.set(index, answer);
            proof {
                assert(answers@.map_values(|a: String| a@) =~= before.map_values(
                    |a: String| a@,
                ).update(index as int, answer@));
            }
            *self = Self {
                service: taken.service,
                questions: taken.questions,
                current_question_index: taken.current_question_index,
                user_answers: answers,
                results: taken.results,
                state: taken.state,
                current_deck_id: taken.current_deck_id,
                questions_per_block: taken.questions_per_block,
            };
        }
    }

    /// Submits what is typed for the open question, which took
    /// `time_spent` milliseconds. It is taken, as `submit_value` takes it,
    /// if it is a decimal number; otherwise, and without an open question,
    /// nothing changes.
    pub fn submit_current_answer(&mut self, time_spent: u32) -> (outcome: SubmitOutcome)
        ensures
            old(self)@.typed_answer() is None ==> {
                &&& outcome == SubmitOutcome::Ignored
                &&& final(self)@ == old(self)@
            },
            old(self)@.typed_answer() matches Some(answer) ==> {
                &&& final(self)@ == old(self)@.answered(answer, time_spent)
                &&& outcome == if old(self)@.current + 1 == old(self)@.questions.len() {
                    SubmitOutcome::BlockCompleted
                } else {
                    SubmitOutcome::NextQuestion
                }
            },
    {
        proof {
            use_type_invariant(&*self);
        }
        if self.current_question_index >= self.questions.len() {
            return SubmitOutcome::Ignored;
        }
        let typed = parse_i32(self.user_answers[self.current_question_index].as_str());
        match typed {
            Some(answer) => self.submit_value(answer, time_spent),
            None => SubmitOutcome::Ignored,
        }
    }

    /// `submit_current_answer` under its other name.
    pub fn submit_answer(&mut self, time_spent: u32) -> (outcome: SubmitOutcome)
        ensures
            old(self)@.typed_answer() is None ==> {
                &&& outcome == SubmitOutcome::Ignored
                &&& final(self)@ == old(self)@
            },
            old(self)@.typed_answer() matches Some(answer) ==> {
                &&& final(self)@ == old(self)@.answered(answer, time_spent)
                &&& outcome == if old(self)@.current + 1 == old(self)@.questions.len() {
                    SubmitOutcome::BlockCompleted
                } else {
                    SubmitOutcome::NextQuestion
                }
            },
    {
        self.submit_current_answer(time_spent)
    }

    /// Replaces the results, as when they come back graded.
    pub fn set_results(&mut self, results: Vec<QuestionResult>)
        ensures
            final(self)@ == old(self)@.with_results(results@),
    {
        proof {
            use_type_invariant(&*self);
        }
        self.results = results;
    }
}

} // verus!
