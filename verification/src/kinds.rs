//! The kinds of question that stored answers are of.

use crate::text::same_text;
use crate::time_statistics::TimedAnswer;
use vstd::prelude::*;
use vstd::string::*;

verus! {

/// What a list of names holds.
pub open spec fn names(kinds: Seq<String>) -> Seq<Seq<char>> {
    kinds.map_values(|kind: String| kind@)
}

/// Whether an answer is looked at: it belongs to a completed deck and,
/// where only correct answers are asked for, is correct.
pub open spec fn is_listed(answer: TimedAnswer, correct_only: bool) -> bool {
    answer.deck_completed && (answer.is_correct || !correct_only)
}

/// The stored names of the kinds of the answers that are looked at, each
/// name once, in the order in which the kinds first occur.
pub open spec fn kinds_of(answers: Seq<TimedAnswer>, correct_only: bool) -> Seq<Seq<char>>
    decreases answers.len(),
{
    if answers.len() == 0 {
        Seq::empty()
    } else {
        let earlier = kinds_of(answers.drop_last(), correct_only);
        let answer = answers.last();
        if is_listed(answer, correct_only) && !earlier.contains(answer.operation_type@) {
            earlier.push(answer.operation_type@)
        } else {
            earlier
        }
    }
}

/// The list holds the kind of every answer that is looked at, holds no
/// other name, and holds no name twice.
pub proof fn lemma_kinds_of(answers: Seq<TimedAnswer>, correct_only: bool)
    ensures
        forall|i: int|
            0 <= i < answers.len() && is_listed(#[trigger] answers[i], correct_only) ==> kinds_of(
                answers,
                correct_only,
            ).contains(answers[i].operation_type@),
        forall|k: int|
            0 <= k < kinds_of(answers, correct_only).len() ==> exists|i: int|
                0 <= i < answers.len() && is_listed(#[trigger] answers[i], correct_only)
                    && answers[i].operation_type@ == (#[trigger] kinds_of(
                    answers,
                    correct_only,
                )[k]),
        kinds_of(answers, correct_only).no_duplicates(),
    decreases answers.len(),
{
    let kinds = kinds_of(answers, correct_only);
    if answers.len() > 0 {
        let front = answers.drop_last();
        let earlier = kinds_of(front, correct_only);
        let answer = answers.last();
        lemma_kinds_of(front, correct_only);
        assert forall|i: int|
            0 <= i < answers.len() && is_listed(
                #[trigger] answers[i],
                correct_only,
            ) implies kinds.contains(answers[i].operation_type@) by {
            if i < front.len() {
                assert(front[i] == answers[i]);
                let at = choose|at: int|
                    0 <= at < earlier.len() && earlier[at] == answers[i].operation_type@;
                assert(kinds[at] == earlier[at]);
            } else if earlier.contains(answer.operation_type@) {
                let at = choose|at: int|
                    0 <= at < earlier.len() && earlier[at] == answer.operation_type@;
                assert(kinds[at] == earlier[at]);
            } else {
                assert(kinds[kinds.len() - 1] == answer.operation_type@);
            }
        }
    }
}

/// Whether `kinds` holds the text `name`.
fn holds(kinds: &Vec<String>, name: &str) -> (found: bool)
    ensures
        found == names(kinds@).contains(name@),
{
    let mut i: usize = 0;
    while i < kinds.len()
        invariant
            i <= kinds.len(),
            forall|k: int| 0 <= k < i ==> names(kinds@)[k] != name@,
        decreases kinds.len() - i,
    {
        if same_text(kinds[i].as_str(), name) {
            assert(names(kinds@)[i as int] == name@);
            return true;
        }
        i = i + 1;
    }
    false
}

/// Lists the stored names of the kinds of the answers in completed decks,
/// of the correct ones only if `correct_only` says so: each name once, in
/// the order in which the kinds first occur.
pub fn list_kinds(answers: &[TimedAnswer], correct_only: bool) -> (kinds: Vec<String>)
    ensures
        names(kinds@) == kinds_of(answers@, correct_only),
        kinds.len() <= answers@.len(),
{
    let mut kinds: Vec<String> = Vec::new();
    let mut i: usize = 0;
    while i < answers.len()
        invariant
            i <= answers@.len(),
            names(kinds@) =~= kinds_of(answers@.take(i as int), correct_only),
            kinds.len() <= i,
        decreases answers@.len() - i,
    {
        proof {
            assert(answers@.take(i as int + 1).drop_last() =~= answers@.take(i as int));
        }
        let answer = &answers[i];
        if answer.deck_completed && (answer.is_correct || !correct_only) && !holds(
            &kinds,
            answer.operation_type.as_str(),
        ) {
            kinds.push(answer.operation_type.clone());
        }
        i = i + 1;
    }
    proof {
        assert(answers@.take(answers@.len() as int) =~= answers@);
    }
    kinds
}

} // verus!
