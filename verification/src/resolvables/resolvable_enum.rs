//! Any of the four kinds of node, so that one queue can hold them all.

use crate::dns_client::{DnsAnswer, DnsAnswerView, DnsClient, DnsQueryView};
use crate::resolvables::outcomes::lemma_outcome_lifted;
use crate::resolvables::{
    outcome, AddrModel, IpAddrModel, NaptrModel, ResolvableAddrRecord, ResolvableExt,
    ResolvableIpAddr, ResolvableNaptrRecord, ResolvableSpec, ResolvableSrvRecord, ResolvableState,
    SrvModel, Step, StepView,
};
use crate::target::Target;
use vstd::prelude::*;

verus! {

/// A node of one of the four kinds.
#[derive(Debug, Clone)]
pub enum ResolvableEnum<C: DnsClient> {
    IpAddr(ResolvableIpAddr),
    AddrRecord(ResolvableAddrRecord<C>),
    SrvRecord(ResolvableSrvRecord<C>),
    NaptrRecord(ResolvableNaptrRecord<C>),
}

/// What a [`ResolvableEnum`] is: the model of the node that it holds.
pub enum EnumModel {
    IpAddr(IpAddrModel),
    AddrRecord(AddrModel),
    SrvRecord(SrvModel),
    NaptrRecord(NaptrModel),
}

impl<C: DnsClient> ResolvableSpec<Target> for ResolvableEnum<C> {
    type Model = EnumModel;

    open spec fn model(&self) -> EnumModel {
        match *self {
            ResolvableEnum::IpAddr(inner) => EnumModel::IpAddr(inner.model()),
            ResolvableEnum::AddrRecord(inner) => EnumModel::AddrRecord(inner.model()),
            ResolvableEnum::SrvRecord(inner) => EnumModel::SrvRecord(inner.model()),
            ResolvableEnum::NaptrRecord(inner) => EnumModel::NaptrRecord(inner.model()),
        }
    }

    open spec fn state_of(m: EnumModel) -> ResolvableState {
        match m {
            EnumModel::IpAddr(inner) => ResolvableIpAddr::state_of(inner),
            EnumModel::AddrRecord(inner) => ResolvableAddrRecord::<C>::state_of(inner),
            EnumModel::SrvRecord(inner) => ResolvableSrvRecord::<C>::state_of(inner),
            EnumModel::NaptrRecord(inner) => ResolvableNaptrRecord::<C>::state_of(inner),
        }
    }

    open spec fn advanced(m: EnumModel) -> (EnumModel, StepView<Target>) {
        match m {
            EnumModel::IpAddr(inner) => (
                EnumModel::IpAddr(ResolvableIpAddr::advanced(inner).0),
                ResolvableIpAddr::advanced(inner).1,
            ),
            EnumModel::AddrRecord(inner) => (
                EnumModel::AddrRecord(ResolvableAddrRecord::<C>::advanced(inner).0),
                ResolvableAddrRecord::<C>::advanced(inner).1,
            ),
            EnumModel::SrvRecord(inner) => (
                EnumModel::SrvRecord(ResolvableSrvRecord::<C>::advanced(inner).0),
                ResolvableSrvRecord::<C>::advanced(inner).1,
            ),
            EnumModel::NaptrRecord(inner) => (
                EnumModel::NaptrRecord(ResolvableNaptrRecord::<C>::advanced(inner).0),
                ResolvableNaptrRecord::<C>::advanced(inner).1,
            ),
        }
    }

    open spec fn supplied(m: EnumModel, answer: DnsAnswerView) -> EnumModel {
        match m {
            EnumModel::IpAddr(inner) => EnumModel::IpAddr(
                ResolvableIpAddr::supplied(inner, answer),
            ),
            EnumModel::AddrRecord(inner) => EnumModel::AddrRecord(
                ResolvableAddrRecord::<C>::supplied(inner, answer),
            ),
            EnumModel::SrvRecord(inner) => EnumModel::SrvRecord(
                ResolvableSrvRecord::<C>::supplied(inner, answer),
            ),
            EnumModel::NaptrRecord(inner) => EnumModel::NaptrRecord(
                ResolvableNaptrRecord::<C>::supplied(inner, answer),
            ),
        }
    }

    open spec fn stream(m: EnumModel, dns: spec_fn(DnsQueryView) -> DnsAnswerView) -> Seq<Target> {
        match m {
            EnumModel::IpAddr(inner) => ResolvableIpAddr::stream(inner, dns),
            EnumModel::AddrRecord(inner) => ResolvableAddrRecord::<C>::stream(inner, dns),
            EnumModel::SrvRecord(inner) => ResolvableSrvRecord::<C>::stream(inner, dns),
            EnumModel::NaptrRecord(inner) => ResolvableNaptrRecord::<C>::stream(inner, dns),
        }
    }

    open spec fn bound_by(m: EnumModel, p: spec_fn(Target) -> bool) -> bool {
        match m {
            EnumModel::IpAddr(inner) => ResolvableIpAddr::bound_by(inner, p),
            EnumModel::AddrRecord(inner) => ResolvableAddrRecord::<C>::bound_by(inner, p),
            EnumModel::SrvRecord(inner) => ResolvableSrvRecord::<C>::bound_by(inner, p),
            EnumModel::NaptrRecord(inner) => ResolvableNaptrRecord::<C>::bound_by(inner, p),
        }
    }

    proof fn law_bound(m: EnumModel, p: spec_fn(Target) -> bool, answer: DnsAnswerView) {
        match m {
            EnumModel::IpAddr(inner) => ResolvableIpAddr::law_bound(inner, p, answer),
            EnumModel::AddrRecord(inner) => ResolvableAddrRecord::<C>::law_bound(inner, p, answer),
            EnumModel::SrvRecord(inner) => ResolvableSrvRecord::<C>::law_bound(inner, p, answer),
            EnumModel::NaptrRecord(inner) => ResolvableNaptrRecord::<C>::law_bound(inner, p, answer),
        }
    }

    proof fn law_lifecycle(m: EnumModel, answer: DnsAnswerView) {
        match m {
            EnumModel::IpAddr(inner) => ResolvableIpAddr::law_lifecycle(inner, answer),
            EnumModel::AddrRecord(inner) => ResolvableAddrRecord::<C>::law_lifecycle(inner, answer),
            EnumModel::SrvRecord(inner) => ResolvableSrvRecord::<C>::law_lifecycle(inner, answer),
            EnumModel::NaptrRecord(inner) => ResolvableNaptrRecord::<C>::law_lifecycle(
                inner,
                answer,
            ),
        }
    }

    proof fn law_stream(m: EnumModel, dns: spec_fn(DnsQueryView) -> DnsAnswerView) {
        match m {
            EnumModel::IpAddr(inner) => ResolvableIpAddr::law_stream(inner, dns),
            EnumModel::AddrRecord(inner) => ResolvableAddrRecord::<C>::law_stream(inner, dns),
            EnumModel::SrvRecord(inner) => ResolvableSrvRecord::<C>::law_stream(inner, dns),
            EnumModel::NaptrRecord(inner) => ResolvableNaptrRecord::<C>::law_stream(inner, dns),
        }
    }
}

impl<C: DnsClient> ResolvableExt<Target> for ResolvableEnum<C> {
    fn state(&self) -> (s: ResolvableState) {
        match self {
            ResolvableEnum::IpAddr(inner) => inner.state(),
            ResolvableEnum::AddrRecord(inner) => inner.state(),
            ResolvableEnum::SrvRecord(inner) => inner.state(),
            ResolvableEnum::NaptrRecord(inner) => inner.state(),
        }
    }

    fn advance(&mut self) -> (step: Step<Target>) {
        match self {
            ResolvableEnum::IpAddr(inner) => inner.advance(),
            ResolvableEnum::AddrRecord(inner) => inner.advance(),
            ResolvableEnum::SrvRecord(inner) => inner.advance(),
            ResolvableEnum::NaptrRecord(inner) => inner.advance(),
        }
    }

    fn supply(&mut self, answer: DnsAnswer) {
        match self {
            ResolvableEnum::IpAddr(inner) => inner.supply(answer),
            ResolvableEnum::AddrRecord(inner) => inner.supply(answer),
            ResolvableEnum::SrvRecord(inner) => inner.supply(answer),
            ResolvableEnum::NaptrRecord(inner) => inner.supply(answer),
        }
    }

    fn resolve_next(&mut self) -> (r: Option<Target>) {
        match self {
            ResolvableEnum::IpAddr(inner) => {
                let ghost before = inner.model();
                let r = inner.resolve_next();
                proof {
                    let given = choose|given: Seq<DnsAnswerView>|
                        outcome::<ResolvableIpAddr, Target>(before, given) == Some((inner.model(), r));
                    lemma_outcome_lifted::<Self, ResolvableIpAddr, Target>(
                        |x| EnumModel::IpAddr(x),
                        |x| true,
                        before,
                        given,
                    );
                }
                r
            },
            ResolvableEnum::AddrRecord(inner) => {
                let ghost before = inner.model();
                let r = inner.resolve_next();
                proof {
                    let given = choose|given: Seq<DnsAnswerView>|
                        outcome::<ResolvableAddrRecord<C>, Target>(before, given) == Some((inner.model(), r));
                    lemma_outcome_lifted::<Self, ResolvableAddrRecord<C>, Target>(
                        |x| EnumModel::AddrRecord(x),
                        |x| true,
                        before,
                        given,
                    );
                }
                r
            },
            ResolvableEnum::SrvRecord(inner) => {
                let ghost before = inner.model();
                let r = inner.resolve_next();
                proof {
                    let given = choose|given: Seq<DnsAnswerView>|
                        outcome::<ResolvableSrvRecord<C>, Target>(before, given) == Some((inner.model(), r));
                    lemma_outcome_lifted::<Self, ResolvableSrvRecord<C>, Target>(
                        |x| EnumModel::SrvRecord(x),
                        |x| true,
                        before,
                        given,
                    );
                }
                r
            },
            ResolvableEnum::NaptrRecord(inner) => {
                let ghost before = inner.model();
                let r = inner.resolve_next();
                proof {
                    let given = choose|given: Seq<DnsAnswerView>|
                        outcome::<ResolvableNaptrRecord<C>, Target>(before, given) == Some((inner.model(), r));
                    lemma_outcome_lifted::<Self, ResolvableNaptrRecord<C>, Target>(
                        |x| EnumModel::NaptrRecord(x),
                        |x| true,
                        before,
                        given,
                    );
                }
                r
            },
        }
    }
}

impl<C: DnsClient> From<ResolvableIpAddr> for ResolvableEnum<C> {
    fn from(from: ResolvableIpAddr) -> (r: Self)
        ensures
            r == ResolvableEnum::<C>::IpAddr(from),
    {
        ResolvableEnum::IpAddr(from)
    }
}

impl<C: DnsClient> vstd::std_specs::convert::FromSpecImpl<ResolvableIpAddr> for ResolvableEnum<C> {
    open spec fn obeys_from_spec() -> bool {
        true
    }

    open spec fn from_spec(from: ResolvableIpAddr) -> Self {
        ResolvableEnum::IpAddr(from)
    }
}

impl<C: DnsClient> From<ResolvableAddrRecord<C>> for ResolvableEnum<C> {
    fn from(from: ResolvableAddrRecord<C>) -> (r: Self)
        ensures
            r == ResolvableEnum::<C>::AddrRecord(from),
    {
        ResolvableEnum::AddrRecord(from)
    }
}

impl<C: DnsClient> vstd::std_specs::convert::FromSpecImpl<ResolvableAddrRecord<C>> for ResolvableEnum<C> {
    open spec fn obeys_from_spec() -> bool {
        true
    }

    open spec fn from_spec(from: ResolvableAddrRecord<C>) -> Self {
        ResolvableEnum::AddrRecord(from)
    }
}

impl<C: DnsClient> From<ResolvableSrvRecord<C>> for ResolvableEnum<C> {
    fn from(from: ResolvableSrvRecord<C>) -> (r: Self)
        ensures
            r == ResolvableEnum::<C>::SrvRecord(from),
    {
        ResolvableEnum::SrvRecord(from)
    }
}

impl<C: DnsClient> vstd::std_specs::convert::FromSpecImpl<ResolvableSrvRecord<C>> for ResolvableEnum<C> {
    open spec fn obeys_from_spec() -> bool {
        true
    }

    open spec fn from_spec(from: ResolvableSrvRecord<C>) -> Self {
        ResolvableEnum::SrvRecord(from)
    }
}

impl<C: DnsClient> From<ResolvableNaptrRecord<C>> for ResolvableEnum<C> {
    fn from(from: ResolvableNaptrRecord<C>) -> (r: Self)
        ensures
            r == ResolvableEnum::<C>::NaptrRecord(from),
    {
        ResolvableEnum::NaptrRecord(from)
    }
}

impl<C: DnsClient> vstd::std_specs::convert::FromSpecImpl<ResolvableNaptrRecord<C>> for ResolvableEnum<C> {
    open spec fn obeys_from_spec() -> bool {
        true
    }

    open spec fn from_spec(from: ResolvableNaptrRecord<C>) -> Self {
        ResolvableEnum::NaptrRecord(from)
    }
}

} // verus!
