//! How many of the stored answers were right.
//!
//! Only answers in completed decks count. The accuracy is the share of
//! correct answers in hundredths of a percent, rounded down.

use crate::kinds::{kinds_of, list_kinds, names};
use crate::text::same_text;
use crate::time_statistics::TimedAnswer;
use vstd::prelude::*;
use vstd::string::*;

verus! {

/// Which answers a figure is drawn from: those of one kind of question, by
/// its stored name, or those of every kind.
pub enum Scope<'a> {
    Kind(&'a str),
    Every,
}

/// Whether an answer is in scope: it belongs to a completed deck and, where
/// `kind` names one, is of that kind.
pub open spec fn in_scope(answer: TimedAnswer, kind: Option<Seq<char>>) -> bool {
    &&& answer.deck_completed
    &&& match kind {
        Some(name) => answer.operation_type@ == name,
        None => true,
    }
}

/// How many of the answers are in scope.
pub open spec fn scoped_count(answers: Seq<TimedAnswer>, kind: Option<Seq<char>>) -> nat
    decreases answers.len(),
{
    if answers.len() == 0 {
        0
    } else {
        scoped_count(answers.drop_last(), kind) + if in_scope(answers.last(), kind) {
            1nat
        } else {
            0nat
        }
    }
}

/// How many of the answers are in scope and correct.
pub open spec fn scoped_correct(answers: Seq<TimedAnswer>, kind: Option<Seq<char>>) -> nat
    decreases answers.len(),
{
    if answers.len() == 0 {
        0
    } else {
        scoped_correct(answers.drop_last(), kind) + if in_scope(answers.last(), kind)
            && answers.last().is_correct {
            1nat
        } else {
            0nat
        }
    }
}

/// No more answers are correct than are in scope, and no more are in scope
/// than there are.
pub proof fn lemma_scoped_counts(answers: Seq<TimedAnswer>, kind: Option<Seq<char>>)
    ensures
        scoped_correct(answers, kind) <= scoped_count(answers, kind) <= answers.len(),
    decreases answers.len(),
{
    if answers.len() > 0 {
        lemma_scoped_counts(answers.drop_last(), kind);
    }
}

/// The share of `correct` in `total`, in hundredths of a percent; zero of
/// nothing.
pub open spec fn share(correct: nat, total: nat) -> nat {
    if total == 0 {
        0
    } else {
        correct * 10000 / total
    }
}

/// What a scope names.
pub open spec fn scope_name(scope: Scope) -> Option<Seq<char>> {
    match scope {
        Scope::Kind(name) => Some(name@),
        Scope::Every => None,
    }
}

/// Counts right and wrong answers.
#[derive(Debug, Clone, Copy)]
pub struct AccuracyRepository;

impl AccuracyRepository {
    pub fn new() -> (repository: Self) {
        Self
    }

    /// The figures of a scope: how many of its answers are correct, how
    /// many there are, and the accuracy.
    pub fn figures(&self, answers: &[TimedAnswer], scope: Scope) -> (figures: (usize, usize, u32))
        ensures
            figures.0 == scoped_correct(answers@, scope_name(scope)),
            figures.1 == scoped_count(answers@, scope_name(scope)),
            figures.2 == share(figures.0 as nat, figures.1 as nat),
            figures.0 <= figures.1,
            figures.2 <= 10000,
    {
        let ghost kind = scope_name(scope);
        let mut correct: usize = 0;
        let mut total: usize = 0;
        let mut i: usize = 0;
        while i < answers.len()
            invariant
                i <= answers@.len(),
                kind == scope_name(scope),
                correct == scoped_correct(answers@.take(i as int), kind),
                total == scoped_count(answers@.take(i as int), kind),
                correct <= total <= i,
            decreases answers@.len() - i,
        {
            proof {
                assert(answers@.take(i as int + 1).drop_last() =~= answers@.take(i as int));
            }
            let answer = &answers[i];
            let of_kind = match scope {
                Scope::Kind(name) => same_text(answer.operation_type.as_str(), name),
                Scope::Every => true,
            };
            if answer.deck_completed && of_kind {
                total = total + 1;
                if answer.is_correct {
                    correct = correct + 1;
                }
            }
            i = i + 1;
        }
        proof {
            assert(answers@.take(answers@.len() as int) =~= answers@);
        }
        let accuracy: u32 = if total == 0 {
            0
        } else {
            assert(correct * 10000 / total as int <= 10000) by (nonlinear_arith)
                requires
                    correct <= total,
                    total > 0,
            ;
            (correct as u128 * 10000 / total as u128) as u32
        };
        (correct, total, accuracy)
    }

    /// The figures of the kind of question stored as `operation_type`.
    pub fn for_operation_type(&self, answers: &[TimedAnswer], operation_type: &str) -> (figures: (
        usize,
        usize,
        u32,
    ))
        ensures
            figures.0 == scoped_correct(answers@, Some(operation_type@)),
            figures.1 == scoped_count(answers@, Some(operation_type@)),
            figures.2 == share(figures.0 as nat, figures.1 as nat),
    {
        self.figures(answers, Scope::Kind(operation_type))
    }

    /// The figures of all answers together; `None` where no answer is in a
    /// completed deck.
    pub fn total_accuracy(&self, answers: &[TimedAnswer]) -> (figures: Option<(usize, usize, u32)>)
        ensures
            figures is None <==> scoped_count(answers@, None) == 0,
            figures matches Some(f) ==> {
                &&& f.0 == scoped_correct(answers@, None)
                &&& f.1 == scoped_count(answers@, None)
                &&& f.2 == share(f.0 as nat, f.1 as nat)
            },
    {
        let figures = self.figures(answers, Scope::Every);
        if figures.1 == 0 {
            None
        } else {
            Some(figures)
        }
    }

    /// The figures of each kind of question that has answers in completed
    /// decks, under the stored name of the kind; the kinds come in the
    /// order in which they first occur among the answers.
    pub fn all_operations(&self, answers: &[TimedAnswer]) -> (listed: Vec<
        (String, (usize, usize, u32)),
    >)
        ensures
            listed@.map_values(|entry: (String, (usize, usize, u32))| entry.0@) == kinds_of(
                answers@,
                false,
            ),
            forall|i: int|
                0 <= i < listed.len() ==> {
                    let (name, figures) = #[trigger] listed[i];
                    &&& figures.0 == scoped_correct(answers@, Some(name@))
                    &&& figures.1 == scoped_count(answers@, Some(name@))
                    &&& figures.2 == share(figures.0 as nat, figures.1 as nat)
                },
    {
        let kinds = list_kinds(answers, false);
        let mut listed: Vec<(String, (usize, usize, u32))> = Vec::new();
        let mut i: usize = 0;
        while i < kinds.len()
            invariant
                i <= kinds.len(),
                listed.len() == i,
                forall|k: int| 0 <= k < i ==> (#[trigger] listed[k]).0@ == kinds[k]@,
                forall|k: int|
                    0 <= k < i ==> {
                        let (name, figures) = #[trigger] listed[k];
                        &&& figures.0 == scoped_correct(answers@, Some(name@))
                        &&& figures.1 == scoped_count(answers@, Some(name@))
                        &&& figures.2 == share(figures.0 as nat, figures.1 as nat)
                    },
            decreases kinds.len() - i,
        {
            let figures = self.for_operation_type(answers, kinds[i].as_str());
            listed.push((kinds[i].clone(), figures));
            i = i + 1;
        }
        listed
    }
}

} // verus!
