//! The nodes of a lookup.
//!
//! Every node yields a sequence of items, one at a time and as late as it
//! can. A node is a state machine with two moves. [`ResolvableExt::advance`]
//! takes a step: it hands out the next item, or names the DNS query whose
//! answer the node needs first, or says that nothing is left.
//! [`ResolvableExt::supply`] gives the node the answer it asked for. What
//! both do is a function of the node's model and of the answer, written
//! down in [`ResolvableSpec::advanced`] and [`ResolvableSpec::supplied`].
//! [`ResolvableExt::resolve_next`] makes the queries itself, through the DNS
//! client that the node holds.

pub mod outcomes;
pub mod resolvable;
pub mod resolvable_addr_record;
pub mod resolvable_enum;
pub mod resolvable_ip_addr;
pub mod resolvable_naptr_record;
pub mod resolvable_srv_record;
pub mod resolvable_vec;

pub use resolvable::{Resolvable, ResolvableModel};
pub use resolvable_addr_record::{AddrModel, ResolvableAddrRecord};
pub use resolvable_enum::{EnumModel, ResolvableEnum};
pub use resolvable_ip_addr::{IpAddrModel, ResolvableIpAddr};
pub use resolvable_naptr_record::{NaptrModel, ResolvableNaptrRecord};
pub use resolvable_srv_record::{ResolvableSrvRecord, SrvModel};
pub use resolvable_vec::ResolvableVec;

use crate::dns_client::{fits, DnsAnswer, DnsAnswerView, DnsQuery, DnsQueryView};
use vstd::prelude::*;

verus! {

/// Where a node stands: not touched yet, holding or awaiting items, or exhausted for good.
#[derive(Debug, Clone, Copy, PartialEq, Eq, Structural)]
pub enum ResolvableState {
    Unset,
    Empty,
    NonEmpty,
}

impl ResolvableState {
    /// The place of a state in a node's life: `Unset`, then `NonEmpty`, then `Empty`.
    pub open spec fn rank(self) -> int {
        match self {
            ResolvableState::Unset => 0,
            ResolvableState::NonEmpty => 1,
            ResolvableState::Empty => 2,
        }
    }
}

/// What a node can hand out.
pub trait ResolvableItem: Sized + Clone + Send {

}

impl<T: Sized + Clone + Send> ResolvableItem for T {

}

/// One step of a node.
#[derive(Debug)]
pub enum Step<I> {
    /// The next item.
    Item(I),
    /// The node needs the answer to this query before it can go on.
    Query(DnsQuery),
    /// Nothing is left.
    Done,
}

/// A [`Step`] as plain values.
pub enum StepView<I> {
    Item(I),
    Query(DnsQueryView),
    Done,
}

impl<I> View for Step<I> {
    type V = StepView<I>;

    open spec fn view(&self) -> StepView<I> {
        match *self {
            Step::Item(item) => StepView::Item(item),
            Step::Query(query) => StepView::Query(query@),
            Step::Done => StepView::Done,
        }
    }
}

/// The step that stands for a result of `resolve_next`.
pub open spec fn step_of<I>(r: Option<I>) -> StepView<I> {
    match r {
        Some(item) => StepView::Item(item),
        None => StepView::Done,
    }
}

/// What a node of a lookup is and does, mathematically.
pub trait ResolvableSpec<I: ResolvableItem>: Sized {
    /// What the node is, mathematically.
    type Model;

    spec fn model(&self) -> Self::Model;

    /// The state that a node with this model reports.
    spec fn state_of(m: Self::Model) -> ResolvableState;

    /// One step: the model afterwards, and what the step hands out.
    spec fn advanced(m: Self::Model) -> (Self::Model, StepView<I>);

    /// The model after the node was given an answer.
    spec fn supplied(m: Self::Model, answer: DnsAnswerView) -> Self::Model;

    /// Everything that the node yields from here on, if every query is answered as `dns` says.
    spec fn stream(m: Self::Model, dns: spec_fn(DnsQueryView) -> DnsAnswerView) -> Seq<I>;

    /// A bound on what the node hands out: where it holds, every item that
    /// the node can still hand out satisfies `p`, whatever is answered to
    /// its queries.
    spec fn bound_by(m: Self::Model, p: spec_fn(I) -> bool) -> bool;

    /// A bound holds of the item that a step hands out, and goes on
    /// holding after every step and every answer.
    proof fn law_bound(m: Self::Model, p: spec_fn(I) -> bool, answer: DnsAnswerView)
        requires
            Self::bound_by(m, p),
        ensures
            Self::bound_by(Self::advanced(m).0, p),
            Self::advanced(m).1 matches StepView::Item(item) ==> p(item),
            Self::bound_by(Self::supplied(m, answer), p),
    ;

    /// A node's life goes one way. An exhausted node has nothing to hand
    /// out; a node that had nothing to hand out is exhausted; a node that
    /// handed out an item has been touched; and no step and no answer takes a
    /// node back to an earlier state.
    proof fn law_lifecycle(m: Self::Model, answer: DnsAnswerView)
        ensures
            Self::state_of(m) is Empty ==> Self::advanced(m).1 is Done,
            Self::advanced(m).1 is Done ==> Self::state_of(Self::advanced(m).0) is Empty,
            Self::advanced(m).1 is Item ==> !(Self::state_of(Self::advanced(m).0) is Unset),
            Self::state_of(Self::advanced(m).0).rank() >= Self::state_of(m).rank(),
            Self::state_of(Self::supplied(m, answer)).rank() >= Self::state_of(m).rank(),
    ;

    /// Steps follow the stream. An item handed out is the head of the
    /// stream, and the rest is the stream afterwards. A node with nothing
    /// left has an empty stream. A node that asks a query has, once it is
    /// given what `dns` answers, the stream it had before.
    proof fn law_stream(m: Self::Model, dns: spec_fn(DnsQueryView) -> DnsAnswerView)
        ensures
            Self::advanced(m).1 matches StepView::Item(item) ==> Self::stream(m, dns) == seq![
                item,
            ] + Self::stream(Self::advanced(m).0, dns),
            Self::advanced(m).1 is Done ==> Self::stream(m, dns) == Seq::<I>::empty()
                && Self::stream(Self::advanced(m).0, dns) == Seq::<I>::empty(),
            Self::advanced(m).1 matches StepView::Query(query) ==> Self::stream(
                Self::supplied(Self::advanced(m).0, dns(query)),
                dns,
            ) == Self::stream(m, dns),
    ;

}

/// What a node comes to when it is stepped until it hands out an item or has
/// nothing left, and the queries it asks on the way are answered by
/// `given`, in order: the model afterwards, and the item if there is one.
/// `None` where the answers do not fit the queries: one is not of the kind
/// asked for, one is missing, or one is left over.
pub open spec fn outcome<T: ResolvableSpec<I>, I: ResolvableItem>(
    m: T::Model,
    given: Seq<DnsAnswerView>,
) -> Option<(T::Model, Option<I>)>
    decreases given.len(),
{
    match T::advanced(m).1 {
        StepView::Item(item) => if given.len() == 0 {
            Some((T::advanced(m).0, Some(item)))
        } else {
            None
        },
        StepView::Done => if given.len() == 0 {
            Some((T::advanced(m).0, None))
        } else {
            None
        },
        StepView::Query(query) => if given.len() > 0 && fits(query, given[0]) {
            outcome::<T, I>(T::supplied(T::advanced(m).0, given[0]), given.drop_first())
        } else {
            None
        },
    }
}

/// A node of a lookup: a lazy sequence of items of type `I`.
pub trait ResolvableExt<I: ResolvableItem>: ResolvableSpec<I> {
    /// The state of the node.
    fn state(&self) -> (s: ResolvableState)
        ensures
            s == Self::state_of(self.model()),
    ;

    /// Takes one step, without any DNS query.
    fn advance(&mut self) -> (step: Step<I>)
        ensures
            final(self).model() == Self::advanced(old(self).model()).0,
            step@ == Self::advanced(old(self).model()).1,
    ;

    /// Gives the node an answer. It goes to the part of the node that
    /// `advance` last asked for; a node that awaits nothing stays as it is.
    fn supply(&mut self, answer: DnsAnswer)
        ensures
            final(self).model() == Self::supplied(old(self).model(), answer@),
    ;

    /// The next item, or `None` when the node is exhausted. The node makes
    /// the DNS queries that stand between it and the next item, and goes on
    /// with whatever they answer: the result is the [`outcome`] of the
    /// answers that came back. So `None` leaves the node `Empty`, an `Empty`
    /// node gives `None`, the node is never `Unset` afterwards and never in
    /// an earlier state than before; and where the next step needs no query,
    /// the call is that step.
    fn resolve_next(&mut self) -> (r: Option<I>)
        ensures
            exists|given: Seq<DnsAnswerView>| #[trigger]
                outcome::<Self, I>(old(self).model(), given) == Some((final(self).model(), r)),
            r is None ==> Self::state_of(final(self).model()) is Empty,
            Self::state_of(old(self).model()) is Empty ==> r is None,
            !(Self::state_of(final(self).model()) is Unset),
            Self::state_of(final(self).model()).rank() >= Self::state_of(old(self).model()).rank(),
            !(Self::advanced(old(self).model()).1 is Query) ==> final(self).model()
                == Self::advanced(old(self).model()).0 && step_of(r) == Self::advanced(
                old(self).model(),
            ).1,
    ;

    fn is_empty(&self) -> (b: bool)
        ensures
            b == (Self::state_of(self.model()) is Empty),
    {
        match self.state() {
            ResolvableState::Empty => true,
            _ => false,
        }
    }

    fn is_unset(&self) -> (b: bool)
        ensures
            b == (Self::state_of(self.model()) is Unset),
    {
        match self.state() {
            ResolvableState::Unset => true,
            _ => false,
        }
    }

    fn is_empty_or_unset(&self) -> (b: bool)
        ensures
            b == !(Self::state_of(self.model()) is NonEmpty),
    {
        self.is_empty() || self.is_unset()
    }
}

} // verus!
