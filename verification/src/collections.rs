//! Moving items from one collection into another.

use std::collections::VecDeque;
use vstd::prelude::*;

verus! {

/// The items of `items`, as a queue with the same order.
pub fn into_deque<T>(items: Vec<T>) -> (queue: VecDeque<T>)
    ensures
        queue@ == items@,
{
    let mut items = items;
    let ghost all = items@;
    let mut queue: VecDeque<T> = VecDeque::new();
    while items.len() > 0
        invariant
            items@ + queue@ == all,
        decreases items.len(),
    {
        let ghost before = items@;
        let ghost queued = queue@;
        let item = items.pop().unwrap();
        queue.push_front(item);
        assert(items@ + queue@ =~= before + queued) by {
            assert(before =~= items@.push(item));
        }
    }
    assert(queue@ =~= all);
    queue
}

} // verus!
