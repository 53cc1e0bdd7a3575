//! Looking schedules up by their due date.
//!
//! The schedules are handed in as they are stored, in the order of their
//! storing. What is due comes back oldest first; schedules that are due at
//! the same instant keep the order in which they were stored.

use crate::spaced_repetition::ReviewItem;
use vstd::prelude::*;

verus! {

/// Whether a schedule is due at the instant `before`: its due date is not
/// later.
pub open spec fn is_due(item: ReviewItem, before: i64) -> bool {
    item.next_review_date <= before
}

/// Whether the schedules stand in the order of their due dates, oldest
/// first.
pub open spec fn oldest_first(items: Seq<ReviewItem>) -> bool {
    forall|i: int, j: int|
        0 <= i <= j < items.len() ==> (#[trigger] items[i]).next_review_date <= (
        #[trigger] items[j]).next_review_date
}

/// `sorted` with `item` put behind the last schedule that is due no later
/// than it.
pub open spec fn insert_by_date(sorted: Seq<ReviewItem>, item: ReviewItem) -> Seq<ReviewItem>
    decreases sorted.len(),
{
    if sorted.len() == 0 {
        seq![item]
    } else if sorted.last().next_review_date <= item.next_review_date {
        sorted.push(item)
    } else {
        insert_by_date(sorted.drop_last(), item).push(sorted.last())
    }
}

/// The schedules ordered by due date, oldest first, those of equal date in
/// the order in which they stand in `items`.
pub open spec fn by_date(items: Seq<ReviewItem>) -> Seq<ReviewItem>
    decreases items.len(),
{
    if items.len() == 0 {
        Seq::empty()
    } else {
        insert_by_date(by_date(items.drop_last()), items.last())
    }
}

/// The schedules that are due at `before`, oldest first.
pub open spec fn due_in_order(items: Seq<ReviewItem>, before: i64) -> Seq<ReviewItem> {
    by_date(items.filter(|item: ReviewItem| is_due(item, before)))
}

/// Inserting by date is inserting at the place behind which every schedule
/// is due later, and before which the next one is not.
proof fn lemma_insert_place(sorted: Seq<ReviewItem>, item: ReviewItem, place: int)
    requires
        0 <= place <= sorted.len(),
        forall|k: int|
            place <= k < sorted.len() ==> (#[trigger] sorted[k]).next_review_date
                > item.next_review_date,
        place > 0 ==> sorted[place - 1].next_review_date <= item.next_review_date,
    ensures
        insert_by_date(sorted, item) == sorted.insert(place, item),
    decreases sorted.len(),
{
    if 0 <= place < sorted.len() {
        lemma_insert_place(sorted.drop_last(), item, place);
    }
}

/// Inserting by date keeps the order, adds the schedule and nothing else.
pub proof fn lemma_insert_by_date(sorted: Seq<ReviewItem>, item: ReviewItem)
    requires
        oldest_first(sorted),
    ensures
        oldest_first(insert_by_date(sorted, item)),
        insert_by_date(sorted, item).to_multiset() == sorted.to_multiset().insert(item),
        insert_by_date(sorted, item).len() == sorted.len() + 1,
    decreases sorted.len(),
{
    broadcast use vstd::seq_lib::group_to_multiset_ensures;

    let result = insert_by_date(sorted, item);
    if sorted.len() > 0 && sorted.last().next_review_date > item.next_review_date {
        let front = sorted.drop_last();
        let inner = insert_by_date(front, item);
        lemma_insert_by_date(front, item);
        assert(sorted =~= front.push(sorted.last()));
        assert forall|i: int, j: int| 0 <= i <= j < result.len() implies (
        #[trigger] result[i]).next_review_date <= (#[trigger] result[j]).next_review_date by {
            if j == inner.len() && i < j {
                // every schedule of `inner` is the new one or one of `front`
                assert(inner.to_multiset().count(inner[i]) > 0);
                if inner[i] != item {
                    let k = choose|k: int| 0 <= k < front.len() && front[k] == inner[i];
                    assert(sorted[k].next_review_date <= sorted.last().next_review_date);
                }
            }
        }
    }
}

/// Ordering by date orders, and neither adds nor drops a schedule.
pub proof fn lemma_by_date(items: Seq<ReviewItem>)
    ensures
        oldest_first(by_date(items)),
        by_date(items).to_multiset() == items.to_multiset(),
        by_date(items).len() == items.len(),
    decreases items.len(),
{
    broadcast use vstd::seq_lib::group_to_multiset_ensures;

    if items.len() > 0 {
        lemma_by_date(items.drop_last());
        lemma_insert_by_date(by_date(items.drop_last()), items.last());
        assert(items =~= items.drop_last().push(items.last()));
    }
}

/// What is due comes oldest first, holds only schedules that are due, and
/// holds each schedule of the store that is due as often as the store does.
pub proof fn lemma_due_in_order(items: Seq<ReviewItem>, before: i64)
    ensures
        oldest_first(due_in_order(items, before)),
        forall|i: int|
            0 <= i < due_in_order(items, before).len() ==> is_due(
                #[trigger] due_in_order(items, before)[i],
                before,
            ),
        due_in_order(items, before).to_multiset() == items.filter(
            |item: ReviewItem| is_due(item, before),
        ).to_multiset(),
        due_in_order(items, before).len() <= items.len(),
{
    broadcast use vstd::seq_lib::group_to_multiset_ensures;

    let due = |item: ReviewItem| is_due(item, before);
    let chosen = items.filter(due);
    let ordered = due_in_order(items, before);
    lemma_by_date(chosen);
    items.lemma_filter_len(due);
    assert forall|i: int| 0 <= i < ordered.len() implies is_due(#[trigger] ordered[i], before) by {
        assert(ordered.to_multiset().count(ordered[i]) > 0);
        let k = choose|k: int| 0 <= k < chosen.len() && chosen[k] == ordered[i];
        items.lemma_filter_pred(due, k);
    }
}

/// Asking twice what is due, of the same schedules and at the same instant,
/// gives the same list both times.
pub proof fn lemma_due_lookup_repeats(
    items: Seq<ReviewItem>,
    before: i64,
    first: Seq<ReviewItem>,
    second: Seq<ReviewItem>,
)
    requires
        first == due_in_order(items, before),
        second == due_in_order(items, before),
    ensures
        first == second,
{
}

/// The schedules among `items` that are due at `before_date`, oldest first;
/// schedules that are due at the same instant come in the order in which
/// they stand in `items`.
pub fn get_due(items: &[ReviewItem], before_date: i64) -> (due: Vec<ReviewItem>)
    ensures
        due@ == due_in_order(items@, before_date),
        oldest_first(due@),
        forall|i: int| 0 <= i < due.len() ==> is_due(#[trigger] due[i], before_date),
        due@.to_multiset() == items@.filter(
            |item: ReviewItem| is_due(item, before_date),
        ).to_multiset(),
{
    let ghost due_now = |item: ReviewItem| is_due(item, before_date);
    let mut due: Vec<ReviewItem> = Vec::new();
    let mut i: usize = 0;
    while i < items.len()
        invariant
            i <= items@.len(),
            due_now == (|item: ReviewItem| is_due(item, before_date)),
            due@ == by_date(items@.take(i as int).filter(due_now)),
        decreases items@.len() - i,
    {
        let item = items[i];
        proof {
            reveal(Seq::filter);
            assert(items@.take(i as int + 1).drop_last() =~= items@.take(i as int));
        }
        if item.next_review_date <= before_date {
            let ghost sorted = due@;
            let mut place: usize = due.len();
            while place > 0 && due[place - 1].next_review_date > item.next_review_date
                invariant
                    place <= due.len(),
                    due@ == sorted,
                    forall|k: int|
                        place <= k < due.len() ==> (#[trigger] due[k]).next_review_date
                            > item.next_review_date,
                decreases place,
            {
                place = place - 1;
            }
            proof {
                lemma_insert_place(sorted, item, place as int);
                let chosen = items@.take(i as int).filter(due_now);
                assert(chosen.push(item).drop_last() =~= chosen);
            }
            due.insert(place, item);
        }
        i = i + 1;
    }
    proof {
        assert(items@.take(items@.len() as int) =~= items@);
        lemma_due_in_order(items@, before_date);
    }
    due
}

/// How many of the schedules are due at `before_date`.
pub fn count_due(items: &[ReviewItem], before_date: i64) -> (count: usize)
    ensures
        count == due_in_order(items@, before_date).len(),
        count == items@.filter(|item: ReviewItem| is_due(item, before_date)).len(),
{
    let ghost due_now = |item: ReviewItem| is_due(item, before_date);
    let mut count: usize = 0;
    let mut i: usize = 0;
    while i < items.len()
        invariant
            i <= items@.len(),
            due_now == (|item: ReviewItem| is_due(item, before_date)),
            count == items@.take(i as int).filter(due_now).len(),
            count <= i,
        decreases items@.len() - i,
    {
        proof {
            reveal(Seq::filter);
            assert(items@.take(i as int + 1).drop_last() =~= items@.take(i as int));
        }
        if items[i].next_review_date <= before_date {
            count = count + 1;
        }
        i = i + 1;
    }
    proof {
        assert(items@.take(items@.len() as int) =~= items@);
        lemma_by_date(items@.filter(due_now));
    }
    count
}

} // verus!
