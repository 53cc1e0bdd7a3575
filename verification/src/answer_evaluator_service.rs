//! Timing norms for grading: the norms drawn from a kind's history where it
//! has one, and the fixed norms that stand in where it has none.

use crate::spaced_repetition::AnswerTimedEvaluator;
use vstd::prelude::*;

verus! {

/// The average that is assumed for a kind of question without history:
/// three seconds.
pub const DEFAULT_AVERAGE: u32 = 3000;

/// The standard deviation that is assumed for a kind of question without
/// history: two seconds.
pub const DEFAULT_STANDARD_DEVIATION: u32 = 2000;

/// Chooses the norms by which an answer is graded.
#[derive(Debug, Clone, Copy)]
pub struct AnswerEvaluatorService;

impl AnswerEvaluatorService {
    /// The norms for a kind of question without history.
    pub open spec fn fallback() -> AnswerTimedEvaluator {
        AnswerTimedEvaluator {
            average: DEFAULT_AVERAGE,
            standard_deviation: DEFAULT_STANDARD_DEVIATION,
        }
    }

    /// The norms to grade by, given what the history of the kind yields.
    pub open spec fn norms_for(history: Option<AnswerTimedEvaluator>) -> AnswerTimedEvaluator {
        match history {
            Some(norms) => norms,
            None => Self::fallback(),
        }
    }

    pub fn new() -> (service: Self) {
        Self
    }

    /// The norms of a kind of question: those of its history, or the
    /// fallback where the history yields none.
    pub fn get_evaluator(&self, history: Option<AnswerTimedEvaluator>) -> (norms:
        AnswerTimedEvaluator)
        ensures
            norms == Self::norms_for(history),
    {
        match history {
            Some(norms) => norms,
            None => AnswerTimedEvaluator::new(DEFAULT_AVERAGE, DEFAULT_STANDARD_DEVIATION),
        }
    }
}

} // verus!
