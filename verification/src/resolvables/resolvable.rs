//! The plain sequence: a queue of items that are already there.

use crate::dns_client::{DnsAnswer, DnsAnswerView, DnsQueryView};
use crate::collections::into_deque;
use crate::resolvables::outcomes::lemma_outcome_without_query;
use crate::resolvables::{
    ResolvableExt, ResolvableItem, ResolvableSpec, ResolvableState, Step, StepView,
};
use std::collections::VecDeque;
use vstd::prelude::*;

verus! {

/// A queue of items, handed out from the front.
#[derive(Debug, Clone)]
pub struct Resolvable<T: ResolvableItem>(ResolvableInner<T>);

#[derive(Debug, Clone)]
enum ResolvableInner<T: ResolvableItem> {
    Unset,
    Empty,
    NonEmpty(VecDeque<T>),
}

/// What a [`Resolvable`] is: untouched, exhausted, or a queue of items.
pub enum ResolvableModel<T> {
    Unset,
    Empty,
    NonEmpty(Seq<T>),
}

impl<T: ResolvableItem> Resolvable<T> {
    /// A node that was not touched yet. It has no items.
    pub fn unset() -> (r: Self)
        ensures
            r.model() == ResolvableModel::<T>::Unset,
    {
        Resolvable(ResolvableInner::Unset)
    }

    /// An exhausted node.
    pub fn empty() -> (r: Self)
        ensures
            r.model() == ResolvableModel::<T>::Empty,
    {
        Resolvable(ResolvableInner::Empty)
    }

    /// A node that hands out `stuff`, front first.
    pub fn non_empty(stuff: Vec<T>) -> (r: Self)
        ensures
            r.model() == ResolvableModel::NonEmpty(stuff@),
    {
        Resolvable(ResolvableInner::NonEmpty(into_deque(stuff)))
    }

    /// A node that hands out `from`, front first; exhausted at once where `from` is empty.
    pub fn from_vec(from: Vec<T>) -> (r: Self)
        ensures
            r.model() == (if from@.len() == 0 {
                ResolvableModel::Empty
            } else {
                ResolvableModel::NonEmpty(from@)
            }),
    {
        if from.len() == 0 {
            Resolvable(ResolvableInner::Empty)
        } else {
            Resolvable(ResolvableInner::NonEmpty(into_deque(from)))
        }
    }
}

impl<T: ResolvableItem> Default for Resolvable<T> {
    fn default() -> (r: Self)
        ensures
            r.model() == ResolvableModel::<T>::Unset,
    {
        Resolvable(ResolvableInner::Unset)
    }
}

impl<T: ResolvableItem> ResolvableSpec<T> for Resolvable<T> {
    type Model = ResolvableModel<T>;

    closed spec fn model(&self) -> ResolvableModel<T> {
        match self.0 {
            ResolvableInner::Unset => ResolvableModel::Unset,
            ResolvableInner::Empty => ResolvableModel::Empty,
            ResolvableInner::NonEmpty(queue) => ResolvableModel::NonEmpty(queue@),
        }
    }

    open spec fn state_of(m: ResolvableModel<T>) -> ResolvableState {
        match m {
            ResolvableModel::Unset => ResolvableState::Unset,
            ResolvableModel::Empty => ResolvableState::Empty,
            ResolvableModel::NonEmpty(_) => ResolvableState::NonEmpty,
        }
    }

    /// The front item leaves the queue; the node is exhausted as soon as
    /// the queue is empty, and at once where it holds no queue.
    open spec fn advanced(m: ResolvableModel<T>) -> (ResolvableModel<T>, StepView<T>) {
        match m {
            ResolvableModel::NonEmpty(queue) => if queue.len() == 0 {
                (ResolvableModel::Empty, StepView::Done)
            } else if queue.len() == 1 {
                (ResolvableModel::Empty, StepView::Item(queue[0]))
            } else {
                (ResolvableModel::NonEmpty(queue.drop_first()), StepView::Item(queue[0]))
            },
            _ => (ResolvableModel::Empty, StepView::Done),
        }
    }

    open spec fn supplied(m: ResolvableModel<T>, answer: DnsAnswerView) -> ResolvableModel<T> {
        m
    }

    open spec fn stream(m: ResolvableModel<T>, dns: spec_fn(DnsQueryView) -> DnsAnswerView) -> Seq<
        T,
    > {
        match m {
            ResolvableModel::NonEmpty(queue) => queue,
            _ => Seq::empty(),
        }
    }

    open spec fn bound_by(m: ResolvableModel<T>, p: spec_fn(T) -> bool) -> bool {
        m matches ResolvableModel::NonEmpty(queue) ==> forall|i: int|
            0 <= i < queue.len() ==> p(#[trigger] queue[i])
    }

    proof fn law_bound(m: ResolvableModel<T>, p: spec_fn(T) -> bool, answer: DnsAnswerView) {
        match m {
            ResolvableModel::NonEmpty(queue) => {
                if queue.len() > 1 {
                    let rest = queue.drop_first();
                    assert forall|i: int| 0 <= i < rest.len() implies p(#[trigger] rest[i]) by {
                        assert(rest[i] == queue[i + 1]);
                    }
                }
            },
            _ => {},
        }
    }

    proof fn law_lifecycle(m: ResolvableModel<T>, answer: DnsAnswerView) {
    }

    proof fn law_stream(m: ResolvableModel<T>, dns: spec_fn(DnsQueryView) -> DnsAnswerView) {
        match m {
            ResolvableModel::NonEmpty(queue) => {
                if queue.len() == 1 {
                    assert(queue =~= seq![queue[0]] + Seq::<T>::empty());
                } else if queue.len() > 1 {
                    assert(queue =~= seq![queue[0]] + queue.drop_first());
                } else {
                    assert(queue =~= Seq::<T>::empty());
                }
            },
            _ => {},
        }
    }
}

impl<T: ResolvableItem> ResolvableExt<T> for Resolvable<T> {
    fn state(&self) -> (s: ResolvableState) {
        match &self.0 {
            ResolvableInner::Unset => ResolvableState::Unset,
            ResolvableInner::Empty => ResolvableState::Empty,
            ResolvableInner::NonEmpty(_) => ResolvableState::NonEmpty,
        }
    }

    fn advance(&mut self) -> (step: Step<T>) {
        match self.resolve_next() {
            Some(item) => Step::Item(item),
            None => Step::Done,
        }
    }

    fn supply(&mut self, answer: DnsAnswer) {
    }

    fn resolve_next(&mut self) -> (r: Option<T>) {
        let mut inner = ResolvableInner::Empty;
        std::mem::swap(&mut self.0, &mut inner);
        let r = match inner {
            ResolvableInner::NonEmpty(queue) => {
                let mut queue = queue;
                let item = queue.pop_front();
                if queue.len() > 0 {
                    self.0 = ResolvableInner::NonEmpty(queue);
                }
                item
            },
            _ => None,
        };
        proof {
            lemma_outcome_without_query::<Self, T>(old(self).model(), r);
        }
        r
    }
}

} // verus!
