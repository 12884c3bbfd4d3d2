//! Sorting by weight: the heaviest first, equals in the order they came in.

use crate::collections::into_deque;
use vstd::prelude::*;

verus! {

/// Something that is sorted by a weight.
pub trait Weighted {
    spec fn weight_of(&self) -> int;

    fn weight(&self) -> (w: i64)
        ensures
            w == self.weight_of(),
    ;
}

/// Whether the weights fall or stay from each item to the next.
pub open spec fn is_descending<T: Weighted>(items: Seq<T>) -> bool {
    forall|i: int, j: int|
        0 <= i <= j < items.len() ==> (#[trigger] items[i]).weight_of() >= (
        #[trigger] items[j]).weight_of()
}

/// `sorted` with `item` put in behind the last item that is not lighter than it.
pub open spec fn inserted<T: Weighted>(sorted: Seq<T>, item: T) -> Seq<T>
    decreases sorted.len(),
{
    if sorted.len() == 0 {
        seq![item]
    } else if sorted.last().weight_of() >= item.weight_of() {
        sorted.push(item)
    } else {
        inserted(sorted.drop_last(), item).push(sorted.last())
    }
}

/// The items by falling weight; items of one weight keep their order.
pub open spec fn sorted_descending<T: Weighted>(items: Seq<T>) -> Seq<T>
    decreases items.len(),
{
    if items.len() == 0 {
        items
    } else {
        inserted(sorted_descending(items.drop_last()), items.last())
    }
}

/// Where an item goes: behind everything that is not lighter, before everything lighter.
pub proof fn lemma_inserted_at<T: Weighted>(sorted: Seq<T>, item: T, at: int)
    requires
        0 <= at <= sorted.len(),
        forall|k: int| at <= k < sorted.len() ==> (#[trigger] sorted[k]).weight_of() < item.weight_of(),
        at > 0 ==> sorted[at - 1].weight_of() >= item.weight_of(),
    ensures
        inserted(sorted, item) == sorted.insert(at, item),
    decreases sorted.len(),
{
    if sorted.len() == 0 {
        assert(sorted.insert(at, item) =~= seq![item]);
    } else if at == sorted.len() {
        assert(sorted.insert(at, item) =~= sorted.push(item));
    } else {
        assert(sorted.last().weight_of() < item.weight_of());
        let front = sorted.drop_last();
        assert forall|k: int| at <= k < front.len() implies (#[trigger] front[k]).weight_of()
            < item.weight_of() by {
            assert(front[k] == sorted[k]);
        }
        if at > 0 {
            assert(front[at - 1] == sorted[at - 1]);
        }
        lemma_inserted_at(front, item, at);
        assert(front.insert(at, item).push(sorted.last()) =~= sorted.insert(at, item));
    }
}

/// Sorting gives a descending sequence with the same items.
pub proof fn lemma_sorted_descending<T: Weighted>(items: Seq<T>)
    ensures
        is_descending(sorted_descending(items)),
        sorted_descending(items).to_multiset() == items.to_multiset(),
        sorted_descending(items).len() == items.len(),
    decreases items.len(),
{
    broadcast use vstd::seq_lib::to_multiset_insert, vstd::seq_lib::to_multiset_build;

    if items.len() > 0 {
        let front = sorted_descending(items.drop_last());
        let item = items.last();
        lemma_sorted_descending(items.drop_last());
        let at = place_of(front, item);
        lemma_place_of(front, item);
        lemma_inserted_at(front, item, at);
        let r = front.insert(at, item);
        assert(is_descending(r)) by {
            assert forall|i: int, j: int| 0 <= i <= j < r.len() implies (#[trigger] r[i]).weight_of()
                >= (#[trigger] r[j]).weight_of() by {
                if i < at && j > at {
                    assert(r[i] == front[i]);
                    assert(r[j] == front[j - 1]);
                } else if i < at && j == at {
                    assert(r[i] == front[i]);
                    assert(front[i].weight_of() >= front[at - 1].weight_of());
                } else if i < at {
                    assert(r[i] == front[i]);
                    assert(r[j] == front[j]);
                } else if i == at && j > at {
                    assert(r[j] == front[j - 1]);
                } else if i > at {
                    assert(r[i] == front[i - 1]);
                    assert(r[j] == front[j - 1]);
                }
            }
        }
        assert(items.drop_last().push(item) =~= items);
    }
}

/// The place at which `item` goes into `sorted`.
pub open spec fn place_of<T: Weighted>(sorted: Seq<T>, item: T) -> int
    decreases sorted.len(),
{
    if sorted.len() == 0 || sorted.last().weight_of() >= item.weight_of() {
        sorted.len() as int
    } else {
        place_of(sorted.drop_last(), item)
    }
}

pub proof fn lemma_place_of<T: Weighted>(sorted: Seq<T>, item: T)
    ensures
        0 <= place_of(sorted, item) <= sorted.len(),
        forall|k: int|
            place_of(sorted, item) <= k < sorted.len() ==> (#[trigger] sorted[k]).weight_of()
                < item.weight_of(),
        place_of(sorted, item) > 0 ==> sorted[place_of(sorted, item) - 1].weight_of()
            >= item.weight_of(),
    decreases sorted.len(),
{
    if sorted.len() > 0 && sorted.last().weight_of() < item.weight_of() {
        let front = sorted.drop_last();
        lemma_place_of(front, item);
        let at = place_of(front, item);
        assert forall|k: int| at <= k < sorted.len() implies (#[trigger] sorted[k]).weight_of()
            < item.weight_of() by {
            if k < front.len() {
                assert(front[k] == sorted[k]);
            }
        }
        if at > 0 {
            assert(front[at - 1] == sorted[at - 1]);
        }
    }
}

/// Sorts by falling weight. Items of one weight keep their order.
pub fn sort_descending<T: Weighted>(items: Vec<T>) -> (r: Vec<T>)
    ensures
        r@ == sorted_descending(items@),
        is_descending(r@),
        r@.to_multiset() == items@.to_multiset(),
{
    let ghost all = items@;
    let mut queue = into_deque(items);
    let mut r: Vec<T> = Vec::new();
    let ghost mut done: int = 0;
    assert(all.take(0) =~= Seq::<T>::empty());
    assert(all.skip(0) =~= all);
    while queue.len() > 0
        invariant
            0 <= done <= all.len(),
            queue@ == all.skip(done),
            r@ == sorted_descending(all.take(done)),
        decreases queue.len(),
    {
        let item = queue.pop_front().unwrap();
        assert(item == all[done]);
        let w = item.weight();
        let mut at: usize = r.len();
        loop
            invariant
                at <= r.len(),
                w == item.weight_of(),
                forall|k: int| at <= k < r.len() ==> (#[trigger] r@[k]).weight_of() < w,
            ensures
                at > 0 ==> r@[at - 1].weight_of() >= w,
            decreases at,
        {
            if at == 0 {
                break;
            }
            if r[at - 1].weight() >= w {
                break;
            }
            at -= 1;
        }
        proof {
            lemma_inserted_at(r@, item, at as int);
            assert(all.take(done + 1).drop_last() =~= all.take(done));
            assert(all.take(done + 1).last() == item);
            assert(all.skip(done).drop_first() =~= all.skip(done + 1));
            done = done + 1;
        }
        r.insert(at, item);
    }
    proof {
        assert(all.take(done) =~= all);
        lemma_sorted_descending(all);
    }
    r
}

} // verus!
