//! Timing norms drawn from the answers given so far.
//!
//! The norms of a kind of question are the average time of its correct
//! answers in completed decks and the standard deviation of those times,
//! both in whole milliseconds and both rounded down.

use crate::kinds::{is_listed, kinds_of, lemma_kinds_of, list_kinds, names};
use crate::spaced_repetition::AnswerTimedEvaluator;
use crate::text::same_text;
use vstd::prelude::*;
use vstd::string::*;

verus! {

/// One stored answer with what the norms need to know of it.
#[derive(Debug, PartialEq, Eq)]
pub struct TimedAnswer {
    /// The stored name of the kind of question that was answered.
    pub operation_type: String,
    pub is_correct: bool,
    /// The time the answer took, in milliseconds.
    pub time_spent: u32,
    /// Whether the deck that the answer belongs to was completed.
    pub deck_completed: bool,
}

impl TimedAnswer {
    /// Whether the answer counts towards the norms of `operation_type`: it
    /// is a correct answer of that kind in a completed deck.
    pub open spec fn counts_for(self, operation_type: Seq<char>) -> bool {
        &&& self.operation_type@ == operation_type
        &&& self.is_correct
        &&& self.deck_completed
    }
}

/// The times of the answers that count towards the norms of
/// `operation_type`, in the order of the answers.
pub open spec fn counted_times(answers: Seq<TimedAnswer>, operation_type: Seq<char>) -> Seq<u32>
    decreases answers.len(),
{
    if answers.len() == 0 {
        Seq::empty()
    } else {
        let earlier = counted_times(answers.drop_last(), operation_type);
        if answers.last().counts_for(operation_type) {
            earlier.push(answers.last().time_spent)
        } else {
            earlier
        }
    }
}

/// The sum of the times.
pub open spec fn sum_of(times: Seq<u32>) -> nat
    decreases times.len(),
{
    if times.len() == 0 {
        0
    } else {
        sum_of(times.drop_last()) + times.last() as nat
    }
}

/// The sum of the squares of the times.
pub open spec fn sum_of_squares(times: Seq<u32>) -> nat
    decreases times.len(),
{
    if times.len() == 0 {
        0
    } else {
        sum_of_squares(times.drop_last()) + (times.last() as nat) * (times.last() as nat)
    }
}

/// The variance of the times, multiplied by the square of their number:
/// `n * sum(x^2) - sum(x)^2`, and zero where that should be negative.
pub open spec fn scaled_variance(times: Seq<u32>) -> nat {
    let spread = times.len() * sum_of_squares(times) - sum_of(times) * sum_of(times);
    if spread < 0 {
        0
    } else {
        spread as nat
    }
}

/// Whether `deviation` is the standard deviation of the times, rounded
/// down: the largest whole number whose square does not exceed the
/// variance.
pub open spec fn is_deviation_of(deviation: nat, times: Seq<u32>) -> bool {
    let n = times.len();
    &&& (deviation * n) * (deviation * n) <= scaled_variance(times)
    &&& scaled_variance(times) < ((deviation + 1) * n) * ((deviation + 1) * n)
}

/// Whether `norms` are the norms of the times: their average and their
/// standard deviation, both rounded down.
pub open spec fn are_norms_of(norms: AnswerTimedEvaluator, times: Seq<u32>) -> bool {
    &&& times.len() > 0
    &&& norms.average == sum_of(times) / times.len()
    &&& is_deviation_of(norms.standard_deviation as nat, times)
}

/// Whether `root` is the square root of `value`, rounded down.
pub open spec fn is_root_of(root: nat, value: nat) -> bool {
    root * root <= value < (root + 1) * (root + 1)
}

/// A value has one rounded-down square root only.
pub proof fn lemma_root_is_unique(first: nat, second: nat, value: nat)
    requires
        is_root_of(first, value),
        is_root_of(second, value),
    ensures
        first == second,
{
    assert(first < second + 1) by (nonlinear_arith)
        requires
            first * first < (second + 1) * (second + 1),
    ;
    assert(second < first + 1) by (nonlinear_arith)
        requires
            second * second < (first + 1) * (first + 1),
    ;
}

/// The times have one rounded-down standard deviation only, so their norms
/// are unique.
pub proof fn lemma_norms_are_unique(
    first: AnswerTimedEvaluator,
    second: AnswerTimedEvaluator,
    times: Seq<u32>,
)
    requires
        are_norms_of(first, times),
        are_norms_of(second, times),
    ensures
        first == second,
{
    let n = times.len();
    let a = first.standard_deviation as nat;
    let b = second.standard_deviation as nat;
    let v = scaled_variance(times);
    assert(a * n < (b + 1) * n) by (nonlinear_arith)
        requires
            (a * n) * (a * n) <= v,
            v < ((b + 1) * n) * ((b + 1) * n),
    ;
    assert(b * n < (a + 1) * n) by (nonlinear_arith)
        requires
            (b * n) * (b * n) <= v,
            v < ((a + 1) * n) * ((a + 1) * n),
    ;
    assert(a < b + 1 && b < a + 1) by (nonlinear_arith)
        requires
            a * n < (b + 1) * n,
            b * n < (a + 1) * n,
            n > 0,
    ;
}

/// The square root of `value`, rounded down.
pub fn integer_sqrt(value: u128) -> (root: u64)
    ensures
        is_root_of(root as nat, value as nat),
{
    let mut low: u128 = 0;
    let mut high: u128 = 0x1_0000_0000_0000_0000;
    while high - low > 1
        invariant
            low < high <= 0x1_0000_0000_0000_0000,
            low * low <= value,
            high == 0x1_0000_0000_0000_0000 || value < high * high,
        decreases high - low,
    {
        let middle: u128 = low + (high - low) / 2;
        assert(middle * middle < 0x1_0000_0000_0000_0000 * 0x1_0000_0000_0000_0000)
            by (nonlinear_arith)
            requires
                0 <= middle < 0x1_0000_0000_0000_0000,
        ;
        if middle * middle <= value {
            low = middle;
        } else {
            high = middle;
        }
    }
    low as u64
}

/// The sums of a run of times stay within what a hundred and twenty-eight
/// bits hold as long as there are no more times than a `u32` counts.
proof fn lemma_sums_bounded(times: Seq<u32>)
    ensures
        sum_of(times) <= times.len() * 0xffff_ffff,
        sum_of_squares(times) <= times.len() * 0xffff_fffe_0000_0001,
    decreases times.len(),
{
    if times.len() > 0 {
        lemma_sums_bounded(times.drop_last());
        let x = times.last() as nat;
        assert(x * x <= 0xffff_fffe_0000_0001) by (nonlinear_arith)
            requires
                x <= 0xffff_ffff,
        ;
    }
}

/// The norms of a run of times: `None` for no times at all.
pub fn norms_of_times(times: &[u32]) -> (norms: Option<AnswerTimedEvaluator>)
    requires
        times@.len() <= u32::MAX,
    ensures
        norms is None <==> times@.len() == 0,
        norms matches Some(n) ==> are_norms_of(n, times@),
{
    let count = times.len();
    if count == 0 {
        return None;
    }
    let mut sum: u128 = 0;
    let mut squares: u128 = 0;
    let mut i: usize = 0;
    while i < count
        invariant
            i <= count,
            count == times@.len(),
            count <= u32::MAX,
            sum == sum_of(times@.take(i as int)),
            squares == sum_of_squares(times@.take(i as int)),
        decreases count - i,
    {
        let x = times[i] as u128;
        proof {
            let before = times@.take(i as int);
            assert(times@.take(i as int + 1).drop_last() =~= before);
            lemma_sums_bounded(before);
            assert(x * x <= 0xffff_fffe_0000_0001) by (nonlinear_arith)
                requires
                    x <= 0xffff_ffff,
            ;
        }
        sum = sum + x;
        squares = squares + x * x;
        i = i + 1;
    }
    let n = count as u128;
    proof {
        assert(times@.take(count as int) =~= times@);
        lemma_sums_bounded(times@);
        assert(n * squares <= 0xffff_ffff * (0xffff_ffff * 0xffff_fffe_0000_0001))
            by (nonlinear_arith)
            requires
                n <= 0xffff_ffff,
                squares <= n * 0xffff_fffe_0000_0001,
        ;
        assert(sum * sum <= 0xffff_ffff_ffff_ffff_ffff_ffff_ffff_ffff) by (nonlinear_arith)
            requires
                0 <= sum <= 0xffff_fffe_0000_0001,
        ;
    }
    let spread: u128 = if n * squares < sum * sum {
        0
    } else {
        n * squares - sum * sum
    };
    let root = integer_sqrt(spread) as u128;
    let deviation: u128 = root / n;
    let average: u128 = sum / n;
    proof {
        let d = deviation as nat;
        let r = root as nat;
        let v = spread as nat;
        let m = n as nat;
        assert(d * m <= r && r < (d + 1) * m) by (nonlinear_arith)
            requires
                d == r / m,
                m > 0,
        ;
        assert((d * m) * (d * m) <= r * r) by (nonlinear_arith)
            requires
                d * m <= r,
        ;
        assert((r + 1) * (r + 1) <= ((d + 1) * m) * ((d + 1) * m)) by (nonlinear_arith)
            requires
                r + 1 <= (d + 1) * m,
        ;
        // the deviation is no longer than the longest time
        assert(v <= (m * 0xffff_ffff) * (m * 0xffff_ffff)) by (nonlinear_arith)
            requires
                v <= m * squares,
                squares <= m * 0xffff_fffe_0000_0001,
        ;
        assert(d <= 0xffff_ffff) by (nonlinear_arith)
            requires
                (d * m) * (d * m) <= v,
                v <= (m * 0xffff_ffff) * (m * 0xffff_ffff),
                m > 0,
        ;
        assert(average <= 0xffff_ffff) by (nonlinear_arith)
            requires
                average == sum / n,
                sum <= n * 0xffff_ffff,
                n > 0,
        ;
    }
    Some(AnswerTimedEvaluator::new(average as u32, deviation as u32))
}

/// An answer that counts leaves its time among the counted times.
proof fn lemma_counted_times_not_empty(answers: Seq<TimedAnswer>, operation_type: Seq<char>, at: int)
    requires
        0 <= at < answers.len(),
        answers[at].counts_for(operation_type),
    ensures
        counted_times(answers, operation_type).len() > 0,
    decreases answers.len(),
{
    if at < answers.len() - 1 {
        lemma_counted_times_not_empty(answers.drop_last(), operation_type, at);
    }
}

/// Timing norms drawn from stored answers.
#[derive(Debug, Clone, Copy)]
pub struct TimeStatisticsRepository;

impl TimeStatisticsRepository {
    pub fn new() -> (repository: Self) {
        Self
    }

    /// The norms of the kind of question stored as `operation_type`, drawn
    /// from its correct answers in completed decks; `None` where no answer
    /// counts.
    pub fn for_operation_type(&self, answers: &[TimedAnswer], operation_type: &str) -> (norms:
        Option<AnswerTimedEvaluator>)
        requires
            answers@.len() <= u32::MAX,
        ensures
            norms is None <==> counted_times(answers@, operation_type@).len() == 0,
            norms matches Some(n) ==> are_norms_of(n, counted_times(answers@, operation_type@)),
    {
        let mut times: Vec<u32> = Vec::new();
        let mut i: usize = 0;
        while i < answers.len()
            invariant
                i <= answers@.len(),
                times@ == counted_times(answers@.take(i as int), operation_type@),
                times@.len() <= i,
            decreases answers@.len() - i,
        {
            proof {
                assert(answers@.take(i as int + 1).drop_last() =~= answers@.take(i as int));
            }
            let answer = &answers[i];
            if answer.is_correct && answer.deck_completed && same_text(
                answer.operation_type.as_str(),
                operation_type,
            ) {
                times.push(answer.time_spent);
            }
            i = i + 1;
        }
        proof {
            assert(answers@.take(answers@.len() as int) =~= answers@);
        }
        norms_of_times(times.as_slice())
    }

    /// The norms of each kind of question that has correct answers in
    /// completed decks, under the stored name of the kind; the kinds come
    /// in the order in which they first occur among those answers.
    pub fn all_operations(&self, answers: &[TimedAnswer]) -> (listed: Vec<
        (String, AnswerTimedEvaluator),
    >)
        requires
            answers@.len() <= u32::MAX,
        ensures
            listed@.map_values(|entry: (String, AnswerTimedEvaluator)| entry.0@) == kinds_of(
                answers@,
                true,
            ),
            forall|i: int|
                0 <= i < listed.len() ==> are_norms_of(
                    (#[trigger] listed[i]).1,
                    counted_times(answers@, listed[i].0@),
                ),
    {
        let kinds = list_kinds(answers, true);
        let mut listed: Vec<(String, AnswerTimedEvaluator)> = Vec::new();
        let mut i: usize = 0;
        while i < kinds.len()
            invariant
                i <= kinds.len(),
                listed.len() == i,
                answers@.len() <= u32::MAX,
                names(kinds@) == kinds_of(answers@, true),
                forall|k: int| 0 <= k < i ==> (#[trigger] listed[k]).0@ == kinds[k]@,
                forall|k: int|
                    0 <= k < i ==> are_norms_of(
                        (#[trigger] listed[k]).1,
                        counted_times(answers@, listed[k].0@),
                    ),
            decreases kinds.len() - i,
        {
            proof {
                lemma_kinds_of(answers@, true);
                let listed_kinds = kinds_of(answers@, true);
                let at = choose|at: int|
                    0 <= at < answers@.len() && is_listed(#[trigger] answers@[at], true)
                        && answers@[at].operation_type@ == listed_kinds[i as int];
                lemma_counted_times_not_empty(answers@, kinds[i as int]@, at);
            }
            let norms = self.for_operation_type(answers, kinds[i].as_str());
            listed.push((kinds[i].clone(), norms.unwrap()));
            i = i + 1;
        }
        listed
    }
}

} // verus!
