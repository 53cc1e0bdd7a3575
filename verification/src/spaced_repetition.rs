//! Grading an answer by its latency, and the SM-2 style schedule that the
//! grade advances.
//!
//! Times are whole milliseconds, the ease factor is kept in thousandths
//! (`2500` is the factor 2.5), instants are whole seconds since the Unix
//! epoch.

use crate::calendar::{current_timestamp, CLOCK_LIMIT, SECONDS_PER_DAY};
use vstd::prelude::*;

verus! {

/// How well an answer was recalled. The four grades stand for the scores
/// 0, 3, 4 and 5 of the classic six-level scale; the two levels between
/// are never given.
#[derive(Debug, Clone, Copy, PartialEq, Eq, Hash, Structural)]
pub enum QualityGrade {
    /// The answer was wrong.
    Blackout,
    /// Right, but recalled with serious difficulty.
    SeriousDifficulty,
    /// Right after some hesitation.
    Hesitation,
    /// Right and fast.
    Perfect,
}

impl QualityGrade {
    /// The grade's score on the scale from 0 to 5. Grades are ordered by it.
    pub open spec fn points(self) -> int {
        match self {
            QualityGrade::Blackout => 0,
            QualityGrade::SeriousDifficulty => 3,
            QualityGrade::Hesitation => 4,
            QualityGrade::Perfect => 5,
        }
    }

    /// A recall counts as successful unless it was a blackout.
    pub open spec fn recalled(self) -> bool {
        self != QualityGrade::Blackout
    }

    pub fn score(&self) -> (points: u8)
        ensures
            points == self.points(),
    {
        match self {
            QualityGrade::Blackout => 0,
            QualityGrade::SeriousDifficulty => 3,
            QualityGrade::Hesitation => 4,
            QualityGrade::Perfect => 5,
        }
    }

    pub fn is_successful(&self) -> (recalled: bool)
        ensures
            recalled == self.recalled(),
    {
        match self {
            QualityGrade::Blackout => false,
            _ => true,
        }
    }
}

/// How many standard deviations above the average an answer may take before
/// it counts as hesitant.
pub const HESITATION_DEVIATIONS: u64 = 1;

/// How many standard deviations above the average an answer may take before
/// it counts as seriously difficult.
pub const DIFFICULTY_DEVIATIONS: u64 = 3;

/// The timing norms of one kind of question: the average time of its correct
/// answers and their standard deviation, both in milliseconds.
#[derive(Debug, Clone, Copy, PartialEq, Eq, Structural)]
pub struct AnswerTimedEvaluator {
    pub average: u32,
    pub standard_deviation: u32,
}

impl AnswerTimedEvaluator {
    /// The time from which on a correct answer is graded as hesitant.
    pub open spec fn hesitation_threshold(self) -> int {
        self.average + HESITATION_DEVIATIONS * self.standard_deviation
    }

    /// The time from which on a correct answer is graded as seriously
    /// difficult.
    pub open spec fn difficulty_threshold(self) -> int {
        self.average + DIFFICULTY_DEVIATIONS * self.standard_deviation
    }

    /// The grade of an answer. A wrong answer is a blackout whatever it
    /// took; a right one is graded by the band its time falls into, a time
    /// on a threshold belonging to the harder band.
    pub open spec fn grade(self, is_correct: bool, time_spent: int) -> QualityGrade {
        if !is_correct {
            QualityGrade::Blackout
        } else if time_spent >= self.difficulty_threshold() {
            QualityGrade::SeriousDifficulty
        } else if time_spent >= self.hesitation_threshold() {
            QualityGrade::Hesitation
        } else {
            QualityGrade::Perfect
        }
    }

    pub fn new(average: u32, standard_deviation: u32) -> (norms: Self)
        ensures
            norms.average == average,
            norms.standard_deviation == standard_deviation,
    {
        Self { average, standard_deviation }
    }

    pub fn evaluate_performance(&self, is_correct: bool, time_spent: u32) -> (quality: QualityGrade)
        ensures
            quality == self.grade(is_correct, time_spent as int),
            !is_correct ==> quality == QualityGrade::Blackout,
    {
        let time = time_spent as u64;
        let average = self.average as u64;
        let deviation = self.standard_deviation as u64;
        let hesitant_from = average + HESITATION_DEVIATIONS * deviation;
        let difficult_from = average + DIFFICULTY_DEVIATIONS * deviation;
        if !is_correct {
            QualityGrade::Blackout
        } else if time >= difficult_from {
            QualityGrade::SeriousDifficulty
        } else if time >= hesitant_from {
            QualityGrade::Hesitation
        } else {
            QualityGrade::Perfect
        }
    }
}

/// A wrong answer is a blackout, whatever the norms and however long it took.
pub proof fn lemma_wrong_answer_is_blackout(norms: AnswerTimedEvaluator, time_spent: int)
    ensures
        norms.grade(false, time_spent) == QualityGrade::Blackout,
{
}

/// Of two correct answers under the same norms, the slower one never gets
/// the better grade.
pub proof fn lemma_grade_falls_with_time(norms: AnswerTimedEvaluator, faster: int, slower: int)
    requires
        faster < slower,
    ensures
        norms.grade(true, faster).points() >= norms.grade(true, slower).points(),
{
}

/// The lowest ease factor a schedule can have, 1.3.
pub const MIN_EASE_FACTOR: u32 = 1300;

/// The ease factor a schedule starts with, 2.5.
pub const INITIAL_EASE_FACTOR: u32 = 2500;

/// The interval in days after the first successful recall in a row.
pub const FIRST_INTERVAL: i32 = 1;

/// The interval in days after the second successful recall in a row.
pub const SECOND_INTERVAL: i32 = 6;

/// The interval in days after a blackout, which starts the schedule over.
pub const RESTART_INTERVAL: i32 = 1;

/// The change of the ease factor that a grade brings, in thousandths: a
/// tenth up for a perfect recall, none for a hesitant one, and down by 0.14
/// and 0.8 for a difficult one and a blackout.
pub open spec fn ease_change(grade: QualityGrade) -> int {
    match grade {
        QualityGrade::Perfect => 100,
        QualityGrade::Hesitation => 0,
        QualityGrade::SeriousDifficulty => -140,
        QualityGrade::Blackout => -800,
    }
}

/// The changes are those of the SM-2 formula
/// `0.1 - (5 - q) * (0.08 + (5 - q) * 0.02)` for the score `q`, taken in
/// thousandths.
pub proof fn lemma_ease_change_formula(grade: QualityGrade)
    ensures
        ease_change(grade) == 100 - (5 - grade.points()) * (80 + (5 - grade.points()) * 20),
{
    let missed = 5 - grade.points();
    assert(missed * (80 + missed * 20) == if missed == 0 {
        0int
    } else if missed == 1 {
        100int
    } else if missed == 2 {
        240int
    } else {
        900int
    }) by (nonlinear_arith)
        requires
            missed == 0 || missed == 1 || missed == 2 || missed == 5,
    ;
}

/// The ease factor after a review: changed by the grade and held at the
/// floor.
pub open spec fn next_ease_factor(ease_factor: int, grade: QualityGrade) -> int {
    let changed = ease_factor + ease_change(grade);
    if changed < MIN_EASE_FACTOR {
        MIN_EASE_FACTOR as int
    } else {
        changed
    }
}

/// The number of successful recalls in a row after a review.
pub open spec fn next_repetitions(repetitions: int, grade: QualityGrade) -> int {
    if grade.recalled() {
        repetitions + 1
    } else {
        0
    }
}

/// `interval * ease_factor`, the factor taken in thousandths, rounded to the
/// nearest whole day, halves upwards.
pub open spec fn scaled_interval(interval: int, ease_factor: int) -> int {
    (interval * ease_factor + 500) / 1000
}

/// The interval in days after a review.
pub open spec fn next_interval(
    repetitions: int,
    interval: int,
    ease_factor: int,
    grade: QualityGrade,
) -> int {
    if !grade.recalled() {
        RESTART_INTERVAL as int
    } else if repetitions == 0 {
        FIRST_INTERVAL as int
    } else if repetitions == 1 {
        SECOND_INTERVAL as int
    } else {
        scaled_interval(interval, next_ease_factor(ease_factor, grade))
    }
}

/// The ease factor after a run of reviews with the given grades, one after
/// the other.
pub open spec fn ease_factor_after(ease_factor: int, grades: Seq<QualityGrade>) -> int
    decreases grades.len(),
{
    if grades.len() == 0 {
        ease_factor
    } else {
        next_ease_factor(ease_factor_after(ease_factor, grades.drop_last()), grades.last())
    }
}

/// No review takes the ease factor below its floor, whatever the factor
/// was and whatever the grade is.
pub proof fn lemma_ease_factor_floor(ease_factor: int, grade: QualityGrade)
    ensures
        next_ease_factor(ease_factor, grade) >= MIN_EASE_FACTOR,
{
}

/// Nor does any run of reviews, blackouts over and over included.
pub proof fn lemma_ease_factor_floor_holds(ease_factor: int, grades: Seq<QualityGrade>)
    requires
        grades.len() > 0 || ease_factor >= MIN_EASE_FACTOR,
    ensures
        ease_factor_after(ease_factor, grades) >= MIN_EASE_FACTOR,
{
}

/// A blackout lowers an ease factor that is above the floor, and a perfect
/// recall raises any.
pub proof fn lemma_ease_factor_moves(ease_factor: int)
    ensures
        ease_factor > MIN_EASE_FACTOR ==> next_ease_factor(ease_factor, QualityGrade::Blackout)
            < ease_factor,
        ease_factor >= MIN_EASE_FACTOR ==> next_ease_factor(ease_factor, QualityGrade::Perfect)
            > ease_factor,
{
}

/// The first successful recall of a question is followed by an interval of
/// one day and the second in a row by one of six days, whatever the
/// interval and the ease factor were.
pub proof fn lemma_first_intervals(interval: int, ease_factor: int, grade: QualityGrade)
    requires
        grade.recalled(),
    ensures
        next_repetitions(0, grade) == 1,
        next_interval(0, interval, ease_factor, grade) == 1,
        next_repetitions(1, grade) == 2,
        next_interval(1, interval, ease_factor, grade) == 6,
{
}

/// A review of a valid schedule leaves a valid schedule, with the review
/// noted as the last one and the next one due the new interval later.
pub proof fn lemma_reviewed_is_valid(item: ReviewItem, grade: QualityGrade, now: i64)
    requires
        item.can_advance(grade),
        now + next_interval(
            item.repetitions as int,
            item.interval as int,
            item.ease_factor as int,
            grade,
        ) * SECONDS_PER_DAY <= i64::MAX,
    ensures
        item.reviewed(grade, now).is_valid(),
        item.reviewed(grade, now).last_reviewed_date == Some(now),
        item.reviewed(grade, now).next_review_date == now + item.reviewed(grade, now).interval
            * SECONDS_PER_DAY,
        item.reviewed(grade, now).next_review_date >= now,
{
}

/// The schedule of one question.
#[derive(Debug, Clone, Copy, PartialEq, Eq)]
pub struct ReviewItem {
    /// The id under which the schedule is stored, if it is.
    pub id: Option<i64>,
    /// The question that is scheduled.
    pub operation_id: i64,
    /// Successful recalls in a row.
    pub repetitions: i32,
    /// Days between the last review and the next.
    pub interval: i32,
    /// The ease factor in thousandths.
    pub ease_factor: u32,
    /// When the question is due, in seconds since the epoch.
    pub next_review_date: i64,
    /// When the question was last reviewed, if ever.
    pub last_reviewed_date: Option<i64>,
}

impl ReviewItem {
    /// What the data model asks of a schedule: counts are not negative and
    /// the ease factor is at or above its floor.
    pub open spec fn is_valid(self) -> bool {
        &&& 0 <= self.repetitions
        &&& 0 <= self.interval
        &&& MIN_EASE_FACTOR <= self.ease_factor
    }

    /// The counts are not negative, and the schedule that follows a review
    /// with `grade` fits the fields that hold it.
    pub open spec fn can_advance(self, grade: QualityGrade) -> bool {
        &&& 0 <= self.repetitions
        &&& 0 <= self.interval
        &&& next_repetitions(self.repetitions as int, grade) <= i32::MAX
        &&& next_ease_factor(self.ease_factor as int, grade) <= u32::MAX
        &&& next_interval(
            self.repetitions as int,
            self.interval as int,
            self.ease_factor as int,
            grade,
        ) <= i32::MAX
    }

    /// The schedule of a question that is answered for the first time at
    /// `now`.
    pub open spec fn initial(operation_id: i64, now: i64) -> ReviewItem {
        ReviewItem {
            id: None,
            operation_id,
            repetitions: 0,
            interval: 0,
            ease_factor: INITIAL_EASE_FACTOR,
            next_review_date: now,
            last_reviewed_date: None,
        }
    }

    /// The schedule after a review at `now` that was graded `grade`, the
    /// review recorded as the last one.
    pub open spec fn reviewed(self, grade: QualityGrade, now: i64) -> ReviewItem {
        let interval = next_interval(
            self.repetitions as int,
            self.interval as int,
            self.ease_factor as int,
            grade,
        );
        ReviewItem {
            id: self.id,
            operation_id: self.operation_id,
            repetitions: next_repetitions(self.repetitions as int, grade) as i32,
            interval: interval as i32,
            ease_factor: next_ease_factor(self.ease_factor as int, grade) as u32,
            next_review_date: (now + interval * SECONDS_PER_DAY) as i64,
            last_reviewed_date: Some(now),
        }
    }

    /// The same schedule, stored under `id`.
    pub open spec fn stored_as(self, id: i64) -> ReviewItem {
        ReviewItem {
            id: Some(id),
            operation_id: self.operation_id,
            repetitions: self.repetitions,
            interval: self.interval,
            ease_factor: self.ease_factor,
            next_review_date: self.next_review_date,
            last_reviewed_date: self.last_reviewed_date,
        }
    }

    /// Notes the id under which the schedule is stored.
    pub fn with_id(&self, id: i64) -> (item: ReviewItem)
        ensures
            item == self.stored_as(id),
    {
        ReviewItem {
            id: Some(id),
            operation_id: self.operation_id,
            repetitions: self.repetitions,
            interval: self.interval,
            ease_factor: self.ease_factor,
            next_review_date: self.next_review_date,
            last_reviewed_date: self.last_reviewed_date,
        }
    }

    /// Makes the schedule of a question that is answered for the first time.
    pub fn first(operation_id: i64, now: i64) -> (item: ReviewItem)
        ensures
            item == ReviewItem::initial(operation_id, now),
            item.is_valid(),
    {
        ReviewItem {
            id: None,
            operation_id,
            repetitions: 0,
            interval: 0,
            ease_factor: INITIAL_EASE_FACTOR,
            next_review_date: now,
            last_reviewed_date: None,
        }
    }
}

/// Advances review schedules.
#[derive(Debug, Clone, Copy)]
pub struct ReviewScheduler;

impl ReviewScheduler {
    pub fn new() -> (scheduler: Self) {
        Self
    }

    /// Decides whether `item` can be advanced by `quality`, that is, whether
    /// its counts are not negative and the next schedule fits its fields.
    pub fn can_process(&self, item: &ReviewItem, quality: QualityGrade) -> (possible: bool)
        ensures
            possible == item.can_advance(quality),
    {
        if item.repetitions < 0 || item.interval < 0 {
            return false;
        }
        let recalled = quality.is_successful();
        if recalled && item.repetitions == i32::MAX {
            return false;
        }
        let ease = ease_after(item.ease_factor, quality);
        if ease > u32::MAX as u64 {
            return false;
        }
        if recalled && item.repetitions >= 2 {
            let scaled = interval_scaled_by(item.interval, ease);
            scaled <= i32::MAX as u64
        } else {
            true
        }
    }

    /// Advances a schedule by one review that was graded `quality` at the
    /// instant `now`. Returns the successful recalls in a row, the interval
    /// in days, the ease factor and the instant at which the question is due
    /// again, `interval` days after `now`.
    ///
    /// The ease factor changes with every grade and never falls below
    /// `MIN_EASE_FACTOR`. A blackout starts the schedule over; any other
    /// grade counts one more recall, whose interval is one day for the
    /// first, six days for the second, and the previous interval scaled by
    /// the new ease factor from the third on.
    pub fn advance(&self, item: &ReviewItem, quality: QualityGrade, now: i64) -> (next: (
        i32,
        i32,
        u32,
        i64,
    ))
        requires
            item.can_advance(quality),
            now + next_interval(
                item.repetitions as int,
                item.interval as int,
                item.ease_factor as int,
                quality,
            ) * SECONDS_PER_DAY <= i64::MAX,
        ensures
            next.0 == next_repetitions(item.repetitions as int, quality),
            next.1 == next_interval(
                item.repetitions as int,
                item.interval as int,
                item.ease_factor as int,
                quality,
            ),
            next.2 == next_ease_factor(item.ease_factor as int, quality),
            next.3 == now + next.1 * SECONDS_PER_DAY,
            next.2 >= MIN_EASE_FACTOR,
            next.1 >= 0,
            quality.recalled() && item.repetitions == 0 ==> next.0 == 1 && next.1 == 1,
            quality.recalled() && item.repetitions == 1 ==> next.0 == 2 && next.1 == 6,
            !quality.recalled() ==> next.0 == 0 && next.1 == RESTART_INTERVAL,
    {
        let recalled = quality.is_successful();
        let ease = ease_after(item.ease_factor, quality);
        let repetitions: i32 = if recalled {
            item.repetitions + 1
        } else {
            0
        };
        let interval: i32 = if !recalled {
            RESTART_INTERVAL
        } else if repetitions == 1 {
            FIRST_INTERVAL
        } else if repetitions == 2 {
            SECOND_INTERVAL
        } else {
            interval_scaled_by(item.interval, ease) as i32
        };
        let due = now + interval as i64 * SECONDS_PER_DAY;
        (repetitions, interval, ease as u32, due)
    }

    /// Advances a schedule by one review that happens now, by the clock.
    /// The first three parts of the answer are those of `advance`; the last
    /// is the clock's reading plus the new interval in days, and the clock's
    /// reading is all that is left open.
    pub fn process_review(&self, item: &ReviewItem, quality: QualityGrade) -> (next: (
        i32,
        i32,
        u32,
        i64,
    ))
        requires
            item.can_advance(quality),
        ensures
            next.0 == next_repetitions(item.repetitions as int, quality),
            next.1 == next_interval(
                item.repetitions as int,
                item.interval as int,
                item.ease_factor as int,
                quality,
            ),
            next.2 == next_ease_factor(item.ease_factor as int, quality),
            0 <= next.3 - next.1 * SECONDS_PER_DAY < CLOCK_LIMIT,
            next.2 >= MIN_EASE_FACTOR,
            quality.recalled() && item.repetitions == 0 ==> next.0 == 1 && next.1 == 1,
            quality.recalled() && item.repetitions == 1 ==> next.0 == 2 && next.1 == 6,
            !quality.recalled() ==> next.0 == 0 && next.1 == RESTART_INTERVAL,
    {
        let now = current_timestamp();
        self.advance(item, quality, now)
    }
}

impl Default for ReviewScheduler {
    fn default() -> (scheduler: Self)
        ensures
            scheduler == ReviewScheduler,
    {
        Self::new()
    }
}

/// The ease factor after a review, computed wide enough for any stored one.
fn ease_after(ease_factor: u32, quality: QualityGrade) -> (ease: u64)
    ensures
        ease == next_ease_factor(ease_factor as int, quality),
        MIN_EASE_FACTOR <= ease <= u32::MAX + 100,
{
    let missed: i64 = 5 - quality.score() as i64;
    let step: i64 = 80 + missed * 20;
    proof {
        lemma_ease_change_formula(quality);
    }
    let change: i64 = 100 - missed * step;
    let changed: i64 = ease_factor as i64 + change;
    if changed < MIN_EASE_FACTOR as i64 {
        MIN_EASE_FACTOR as u64
    } else {
        changed as u64
    }
}

/// `interval * ease`, in thousandths, rounded to whole days.
fn interval_scaled_by(interval: i32, ease: u64) -> (scaled: u64)
    requires
        0 <= interval,
        ease <= u32::MAX + 100,
    ensures
        scaled == scaled_interval(interval as int, ease as int),
{
    assert(0 <= (interval as int) * (ease as int) <= 0x7fff_ffff * 0x1_0000_0063)
        by (nonlinear_arith)
        requires
            0 <= interval as int <= 0x7fff_ffff,
            0 <= ease as int <= 0x1_0000_0063,
    ;
    (interval as u64 * ease + 500) / 1000
}

} // verus!
