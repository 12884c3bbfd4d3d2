//! The composite: a queue of nodes, drained one after the other.

use crate::dns_client::{DnsAnswer, DnsAnswerView, DnsQueryView};
use crate::collections::into_deque;
use crate::resolvables::{
    outcome, step_of, ResolvableExt, ResolvableItem, ResolvableSpec, ResolvableState, Step,
    StepView,
};
use std::collections::VecDeque;
use std::marker::PhantomData;
use vstd::prelude::*;

verus! {

/// A queue of nodes. Its items are those of its first node, then those of
/// the second, and so on: a node that has nothing left is dropped and the
/// next one is asked.
#[derive(Debug)]
pub struct ResolvableVec<T: ResolvableExt<I>, I: ResolvableItem>(
    Option<VecDeque<T>>,
    PhantomData<I>,
);

/// The models of a queue of nodes.
pub open spec fn models_of<T: ResolvableExt<I>, I: ResolvableItem>(nodes: Seq<T>) -> Seq<
    T::Model,
> {
    nodes.map_values(|node: T| node.model())
}

/// A step of a populated queue: exhausted nodes leave from the front until
/// one hands out an item or asks a query; that node stays in front.
pub open spec fn queue_advanced<T: ResolvableExt<I>, I: ResolvableItem>(queue: Seq<T::Model>) -> (
    Seq<T::Model>,
    StepView<I>,
)
    decreases queue.len(),
{
    if queue.len() == 0 {
        (queue, StepView::Done)
    } else {
        let (head, step) = T::advanced(queue[0]);
        if step is Done {
            queue_advanced::<T, I>(queue.drop_first())
        } else {
            (seq![head] + queue.drop_first(), step)
        }
    }
}

/// The streams of the nodes of a queue, one after the other.
pub open spec fn queue_stream<T: ResolvableExt<I>, I: ResolvableItem>(
    queue: Seq<T::Model>,
    dns: spec_fn(DnsQueryView) -> DnsAnswerView,
) -> Seq<I>
    decreases queue.len(),
{
    if queue.len() == 0 {
        Seq::empty()
    } else {
        T::stream(queue[0], dns) + queue_stream::<T, I>(queue.drop_first(), dns)
    }
}

/// The state of a populated queue.
pub open spec fn queue_state<T: ResolvableExt<I>, I: ResolvableItem>(
    queue: Seq<T::Model>,
) -> ResolvableState {
    if queue.len() == 0 || (queue.len() == 1 && T::state_of(queue[0]) is Empty) {
        ResolvableState::Empty
    } else {
        ResolvableState::NonEmpty
    }
}

/// A queue with nothing to hand out is empty afterwards; otherwise a node is left in front.
pub proof fn lemma_queue_advanced<T: ResolvableExt<I>, I: ResolvableItem>(queue: Seq<T::Model>)
    ensures
        queue_advanced::<T, I>(queue).1 is Done <==> queue_advanced::<T, I>(queue).0.len() == 0,
        queue_advanced::<T, I>(queue).0.len() <= queue.len(),
    decreases queue.len(),
{
    if queue.len() > 0 {
        lemma_queue_advanced::<T, I>(queue.drop_first());
    }
}

/// The stream of a queue follows its steps.
pub proof fn lemma_queue_stream<T: ResolvableExt<I>, I: ResolvableItem>(
    queue: Seq<T::Model>,
    dns: spec_fn(DnsQueryView) -> DnsAnswerView,
)
    ensures
        queue_advanced::<T, I>(queue).1 matches StepView::Item(item) ==> queue_stream::<T, I>(
            queue,
            dns,
        ) == seq![item] + queue_stream::<T, I>(queue_advanced::<T, I>(queue).0, dns),
        queue_advanced::<T, I>(queue).1 is Done ==> queue_stream::<T, I>(queue, dns) == Seq::<
            I,
        >::empty(),
        queue_advanced::<T, I>(queue).1 matches StepView::Query(query) ==> queue_advanced::<T, I>(
            queue,
        ).0.len() > 0 && queue_stream::<T, I>(
            queue_advanced::<T, I>(queue).0.update(
                0,
                T::supplied(queue_advanced::<T, I>(queue).0[0], dns(query)),
            ),
            dns,
        ) == queue_stream::<T, I>(queue, dns),
    decreases queue.len(),
{
    if queue.len() > 0 {
        let rest = queue.drop_first();
        let (head, step) = T::advanced(queue[0]);
        T::law_stream(queue[0], dns);
        if step is Done {
            lemma_queue_stream::<T, I>(rest, dns);
            assert(queue_stream::<T, I>(queue, dns) =~= queue_stream::<T, I>(rest, dns));
        } else {
            let after = seq![head] + rest;
            assert(after.drop_first() =~= rest);
            match step {
                StepView::Item(item) => {
                    assert(queue_stream::<T, I>(queue, dns) =~= seq![item] + queue_stream::<T, I>(
                        after,
                        dns,
                    ));
                },
                StepView::Query(query) => {
                    let given = after.update(0, T::supplied(head, dns(query)));
                    assert(given.drop_first() =~= rest);
                },
                StepView::Done => {},
            }
        }
    }
}

/// Whether a bound holds of every node of a queue.
pub open spec fn queue_bound_by<T: ResolvableExt<I>, I: ResolvableItem>(
    queue: Seq<T::Model>,
    p: spec_fn(I) -> bool,
) -> bool {
    forall|i: int| 0 <= i < queue.len() ==> T::bound_by(#[trigger] queue[i], p)
}

/// A bound on every node of a queue holds of what the queue hands out, and of the queue afterwards.
pub proof fn lemma_queue_bound<T: ResolvableExt<I>, I: ResolvableItem>(
    queue: Seq<T::Model>,
    p: spec_fn(I) -> bool,
)
    requires
        queue_bound_by::<T, I>(queue, p),
    ensures
        queue_bound_by::<T, I>(queue_advanced::<T, I>(queue).0, p),
        queue_advanced::<T, I>(queue).1 matches StepView::Item(item) ==> p(item),
    decreases queue.len(),
{
    if queue.len() > 0 {
        let rest = queue.drop_first();
        assert forall|i: int| 0 <= i < rest.len() implies T::bound_by(#[trigger] rest[i], p) by {
            assert(rest[i] == queue[i + 1]);
        }
        T::law_bound(queue[0], p, arbitrary());
        let (head, step) = T::advanced(queue[0]);
        if step is Done {
            lemma_queue_bound::<T, I>(rest, p);
        } else {
            let after = seq![head] + rest;
            assert forall|i: int| 0 <= i < after.len() implies T::bound_by(
                #[trigger] after[i],
                p,
            ) by {
                if i > 0 {
                    assert(after[i] == rest[i - 1]);
                }
            }
        }
    }
}

/// A queue whose first node runs dry goes on as the queue behind that node.
pub proof fn lemma_queue_head_ran_dry<T: ResolvableExt<I>, I: ResolvableItem>(
    head: T::Model,
    rest: Seq<T::Model>,
    given: Seq<DnsAnswerView>,
    more: Seq<DnsAnswerView>,
)
    requires
        outcome::<T, I>(head, given) matches Some(end) && end.1 is None,
    ensures
        outcome::<ResolvableVec<T, I>, I>(Some(seq![head] + rest), given + more) == outcome::<
            ResolvableVec<T, I>,
            I,
        >(Some(rest), more),
    decreases given.len(),
{
    let queue = seq![head] + rest;
    assert(queue[0] == head);
    assert(queue.drop_first() =~= rest);
    let (next, step) = T::advanced(head);
    match step {
        StepView::Done => {
            assert(given + more =~= more);
        },
        StepView::Item(_) => {},
        StepView::Query(query) => {
            let fed = T::supplied(next, given[0]);
            let after = seq![next] + rest;
            assert(after.update(0, fed) =~= seq![fed] + rest);
            assert((given + more)[0] == given[0]);
            assert((given + more).drop_first() =~= given.drop_first() + more);
            lemma_queue_head_ran_dry::<T, I>(fed, rest, given.drop_first(), more);
        },
    }
}

/// A queue whose first node hands out an item hands out that item, and keeps the node in front.
pub proof fn lemma_queue_head_yielded<T: ResolvableExt<I>, I: ResolvableItem>(
    head: T::Model,
    rest: Seq<T::Model>,
    given: Seq<DnsAnswerView>,
    end: T::Model,
    item: I,
)
    requires
        outcome::<T, I>(head, given) == Some((end, Some(item))),
    ensures
        outcome::<ResolvableVec<T, I>, I>(Some(seq![head] + rest), given) == Some(
            (Some(seq![end] + rest), Some(item)),
        ),
    decreases given.len(),
{
    let queue = seq![head] + rest;
    assert(queue[0] == head);
    assert(queue.drop_first() =~= rest);
    let (next, step) = T::advanced(head);
    match step {
        StepView::Query(query) => {
            let fed = T::supplied(next, given[0]);
            let after = seq![next] + rest;
            assert(after.update(0, fed) =~= seq![fed] + rest);
            lemma_queue_head_yielded::<T, I>(fed, rest, given.drop_first(), end, item);
        },
        _ => {},
    }
}

impl<T: ResolvableExt<I>, I: ResolvableItem> ResolvableVec<T, I> {
    /// A queue that was not populated yet.
    pub fn unset() -> (r: Self)
        ensures
            r.model() == None::<Seq<T::Model>>,
    {
        ResolvableVec(None, PhantomData)
    }

    /// A populated queue without nodes.
    pub fn empty() -> (r: Self)
        ensures
            r.model() == Some(Seq::<T::Model>::empty()),
    {
        let r = ResolvableVec(Some(VecDeque::new()), PhantomData);
        assert(r.model()->0 =~= Seq::<T::Model>::empty());
        r
    }

    /// The queue of the nodes of `stuff`, in their order.
    pub fn non_empty(stuff: Vec<T>) -> (r: Self)
        ensures
            r.model() == Some(models_of::<T, I>(stuff@)),
    {
        ResolvableVec(Some(into_deque(stuff)), PhantomData)
    }
}

impl<T: ResolvableExt<I> + Clone, I: ResolvableItem> Clone for ResolvableVec<T, I> {
    /// A queue of clones of the nodes. What a clone of a node is, is up to the node.
    fn clone(&self) -> (r: Self) {
        ResolvableVec(self.0.clone(), PhantomData)
    }
}

impl<T: ResolvableExt<I>, I: ResolvableItem> Default for ResolvableVec<T, I> {
    fn default() -> (r: Self)
        ensures
            r.model() == None::<Seq<T::Model>>,
    {
        ResolvableVec(None, PhantomData)
    }
}

impl<T: ResolvableExt<I>, I: ResolvableItem> ResolvableSpec<I> for ResolvableVec<T, I> {
    type Model = Option<Seq<T::Model>>;

    closed spec fn model(&self) -> Option<Seq<T::Model>> {
        match self.0 {
            None => None,
            Some(queue) => Some(models_of::<T, I>(queue@)),
        }
    }

    /// `Unset` until the queue is populated. Then `Empty` where no node is
    /// left, or only one that is itself `Empty`; `NonEmpty` otherwise: an
    /// untouched node in front means work to do, and so does any node
    /// behind the first.
    open spec fn state_of(m: Option<Seq<T::Model>>) -> ResolvableState {
        match m {
            None => ResolvableState::Unset,
            Some(queue) => queue_state::<T, I>(queue),
        }
    }

    open spec fn advanced(m: Option<Seq<T::Model>>) -> (Option<Seq<T::Model>>, StepView<I>) {
        match m {
            None => (Some(Seq::empty()), StepView::Done),
            Some(queue) => (
                Some(queue_advanced::<T, I>(queue).0),
                queue_advanced::<T, I>(queue).1,
            ),
        }
    }

    /// The answer goes to the node in front.
    open spec fn supplied(m: Option<Seq<T::Model>>, answer: DnsAnswerView) -> Option<
        Seq<T::Model>,
    > {
        match m {
            Some(queue) if queue.len() > 0 => Some(
                queue.update(0, T::supplied(queue[0], answer)),
            ),
            _ => m,
        }
    }

    open spec fn stream(m: Option<Seq<T::Model>>, dns: spec_fn(DnsQueryView) -> DnsAnswerView) -> Seq<
        I,
    > {
        match m {
            None => Seq::empty(),
            Some(queue) => queue_stream::<T, I>(queue, dns),
        }
    }

    open spec fn bound_by(m: Option<Seq<T::Model>>, p: spec_fn(I) -> bool) -> bool {
        m matches Some(queue) ==> queue_bound_by::<T, I>(queue, p)
    }

    proof fn law_bound(m: Option<Seq<T::Model>>, p: spec_fn(I) -> bool, answer: DnsAnswerView) {
        match m {
            None => {},
            Some(queue) => {
                lemma_queue_bound::<T, I>(queue, p);
                if queue.len() > 0 {
                    T::law_bound(queue[0], p, answer);
                }
            },
        }
    }

    proof fn law_lifecycle(m: Option<Seq<T::Model>>, answer: DnsAnswerView) {
        match m {
            None => {},
            Some(queue) => {
                lemma_queue_advanced::<T, I>(queue);
                if queue.len() > 0 {
                    T::law_lifecycle(queue[0], answer);
                    lemma_queue_advanced::<T, I>(queue.drop_first());
                    let (head, step) = T::advanced(queue[0]);
                    if !(step is Done) {
                        let after = seq![head] + queue.drop_first();
                        assert(after[0] == head);
                    }
                }
            },
        }
    }

    proof fn law_stream(m: Option<Seq<T::Model>>, dns: spec_fn(DnsQueryView) -> DnsAnswerView) {
        match m {
            None => {},
            Some(queue) => {
                lemma_queue_stream::<T, I>(queue, dns);
                lemma_queue_advanced::<T, I>(queue);
            },
        }
    }
}

impl<T: ResolvableExt<I>, I: ResolvableItem> ResolvableExt<I> for ResolvableVec<T, I> {
    fn state(&self) -> (s: ResolvableState) {
        match &self.0 {
            None => ResolvableState::Unset,
            Some(queue) => {
                if queue.len() == 0 {
                    ResolvableState::Empty
                } else if queue.len() > 1 {
                    ResolvableState::NonEmpty
                } else {
                    match queue[0].state() {
                        ResolvableState::Empty => ResolvableState::Empty,
                        _ => ResolvableState::NonEmpty,
                    }
                }
            },
        }
    }

    fn advance(&mut self) -> (step: Step<I>) {
        let mut queue = match self.0.take() {
            Some(queue) => queue,
            None => VecDeque::new(),
        };
        let ghost start = old(self).model();
        let mut step: Step<I> = Step::Done;
        loop
            invariant_except_break
                step@ is Done,
                self.0 is None,
                Self::advanced(start) == Self::advanced(Some(models_of::<T, I>(queue@))),
            ensures
                self.0 is None,
                Self::advanced(start) == (Some(models_of::<T, I>(queue@)), step@),
            decreases queue.len(),
        {
            let ghost before = models_of::<T, I>(queue@);
            match queue.pop_front() {
                None => {
                    assert(before =~= Seq::<T::Model>::empty());
                    assert(models_of::<T, I>(queue@) =~= before);
                    break;
                },
                Some(head) => {
                    let mut head = head;
                    assert(models_of::<T, I>(queue@) =~= before.drop_first());
                    assert(before[0] == head.model());
                    step = head.advance();
                    match step {
                        Step::Done => {},
                        _ => {
                            let ghost rest = queue@;
                            queue.push_front(head);
                            assert(models_of::<T, I>(queue@) =~= seq![head.model()] + models_of::<
                                T,
                                I,
                            >(rest));
                            break;
                        },
                    }
                },
            }
        }
        self.0 = Some(queue);
        step
    }

    fn supply(&mut self, answer: DnsAnswer) {
        match self.0.take() {
            None => {},
            Some(queue) => {
                let mut queue = queue;
                let ghost before = models_of::<T, I>(queue@);
                match queue.pop_front() {
                    None => {
                        assert(models_of::<T, I>(queue@) =~= before);
                    },
                    Some(head) => {
                        let mut head = head;
                        let ghost rest = queue@;
                        head.supply(answer);
                        queue.push_front(head);
                        assert(models_of::<T, I>(queue@) =~= before.update(0, head.model()));
                    },
                }
                self.0 = Some(queue);
            },
        }
    }

    fn resolve_next(&mut self) -> (r: Option<I>) {
        let mut queue = match self.0.take() {
            Some(queue) => queue,
            None => VecDeque::new(),
        };
        let ghost start = old(self).model();
        let ghost exact = !(Self::advanced(start).1 is Query);
        let ghost mut sofar: Seq<DnsAnswerView> = Seq::empty();
        let mut r: Option<I> = None;
        proof {
            Self::law_lifecycle(start, arbitrary());
            assert forall|more: Seq<DnsAnswerView>| #[trigger]
                outcome::<Self, I>(start, sofar + more) == outcome::<Self, I>(
                    Some(models_of::<T, I>(queue@)),
                    more,
                ) by {
                assert(sofar + more =~= more);
                if start is None {
                    assert(models_of::<T, I>(queue@) =~= Seq::<T::Model>::empty());
                }
            }
        }
        loop
            invariant_except_break
                r is None,
                self.0 is None,
                exact ==> Self::advanced(start) == Self::advanced(
                    Some(models_of::<T, I>(queue@)),
                ),
                exact == !(Self::advanced(start).1 is Query),
                Self::state_of(start) is Empty ==> queue_state::<T, I>(models_of::<T, I>(queue@))
                    is Empty,
                forall|more: Seq<DnsAnswerView>| #[trigger]
                    outcome::<Self, I>(start, sofar + more) == outcome::<Self, I>(
                        Some(models_of::<T, I>(queue@)),
                        more,
                    ),
            ensures
                self.0 is None,
                exact ==> Self::advanced(start) == (Some(models_of::<T, I>(queue@)), step_of(r)),
                r is None ==> queue@.len() == 0,
                r is Some ==> queue@.len() > 0,
                Self::state_of(start) is Empty ==> r is None,
                outcome::<Self, I>(start, sofar) == Some((Some(models_of::<T, I>(queue@)), r)),
            decreases queue.len(),
        {
            let ghost before = models_of::<T, I>(queue@);
            match queue.pop_front() {
                None => {
                    proof {
                        assert(before =~= Seq::<T::Model>::empty());
                        assert(models_of::<T, I>(queue@) =~= before);
                        assert(sofar + Seq::<DnsAnswerView>::empty() =~= sofar);
                        assert(outcome::<Self, I>(start, sofar + Seq::<DnsAnswerView>::empty())
                            == outcome::<Self, I>(Some(before), Seq::<DnsAnswerView>::empty()));
                    }
                    break;
                },
                Some(head) => {
                    let mut head = head;
                    let ghost rest = models_of::<T, I>(queue@);
                    assert(rest =~= before.drop_first());
                    assert(before[0] == head.model());
                    assert(before =~= seq![head.model()] + rest);
                    let ghost asked = head.model();
                    proof {
                        T::law_lifecycle(asked, arbitrary());
                    }
                    r = head.resolve_next();
                    let ghost given = choose|given: Seq<DnsAnswerView>|
                        outcome::<T, I>(asked, given) == Some((head.model(), r));
                    match &r {
                        None => {
                            proof {
                                assert forall|more: Seq<DnsAnswerView>| #[trigger]
                                    outcome::<Self, I>(start, (sofar + given) + more) == outcome::<
                                        Self,
                                        I,
                                    >(Some(rest), more) by {
                                    assert((sofar + given) + more =~= sofar + (given + more));
                                    assert(outcome::<Self, I>(start, sofar + (given + more))
                                        == outcome::<Self, I>(Some(before), given + more));
                                    lemma_queue_head_ran_dry::<T, I>(asked, rest, given, more);
                                }
                                sofar = sofar + given;
                            }
                        },
                        Some(item) => {
                            queue.push_front(head);
                            proof {
                                assert(models_of::<T, I>(queue@) =~= seq![head.model()] + rest);
                                lemma_queue_head_yielded::<T, I>(
                                    asked,
                                    rest,
                                    given,
                                    head.model(),
                                    *item,
                                );
                                assert(outcome::<Self, I>(start, sofar + given) == outcome::<
                                    Self,
                                    I,
                                >(Some(before), given));
                                sofar = sofar + given;
                            }
                            break;
                        },
                    }
                },
            }
        }
        self.0 = Some(queue);
        proof {
            let after = models_of::<T, I>(queue@);
            if r is Some {
                assert(after.len() > 0);
            } else {
                assert(after =~= Seq::<T::Model>::empty());
            }
        }
        r
    }
}

} // verus!
