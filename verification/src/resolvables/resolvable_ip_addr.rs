//! The node of one address: it yields one target and is done.

use crate::dns_client::{DnsAnswer, DnsAnswerView, DnsQueryView};
use crate::resolvables::outcomes::lemma_outcome_without_query;
use crate::resolvables::{
    Resolvable, ResolvableExt, ResolvableSpec, ResolvableModel, ResolvableState, Step, StepView,
};
use crate::sip::{IpAddr, Port, Transport};
use crate::target::Target;
use vstd::prelude::*;

verus! {

/// An address with the port and the transport to reach it by.
#[derive(Debug, Clone)]
pub struct ResolvableIpAddr {
    ip_addr: Resolvable<IpAddr>,
    port: Port,
    transport: Transport,
}

/// What a [`ResolvableIpAddr`] is: the addresses still to hand out, and what goes with them.
pub struct IpAddrModel {
    pub ip_addr: ResolvableModel<IpAddr>,
    pub port: Port,
    pub transport: Transport,
}

impl IpAddrModel {
    /// The model of a fresh node for one address.
    pub open spec fn fresh(ip_addr: IpAddr, port: Port, transport: Transport) -> IpAddrModel {
        IpAddrModel { ip_addr: ResolvableModel::NonEmpty(seq![ip_addr]), port, transport }
    }

    pub open spec fn target(self, ip_addr: IpAddr) -> Target {
        Target { ip_addr, port: self.port, transport: self.transport }
    }
}

impl ResolvableIpAddr {
    pub fn new(ip_addr: IpAddr, port: Port, transport: Transport) -> (r: Self)
        ensures
            r.model() == IpAddrModel::fresh(ip_addr, port, transport),
    {
        let one = vec![ip_addr];
        assert(one@ =~= seq![ip_addr]);
        ResolvableIpAddr { ip_addr: Resolvable::non_empty(one), port, transport }
    }
}

impl ResolvableSpec<Target> for ResolvableIpAddr {
    type Model = IpAddrModel;

    closed spec fn model(&self) -> IpAddrModel {
        IpAddrModel { ip_addr: self.ip_addr.model(), port: self.port, transport: self.transport }
    }

    open spec fn state_of(m: IpAddrModel) -> ResolvableState {
        Resolvable::<IpAddr>::state_of(m.ip_addr)
    }

    open spec fn advanced(m: IpAddrModel) -> (IpAddrModel, StepView<Target>) {
        let (ip_addr, step) = Resolvable::<IpAddr>::advanced(m.ip_addr);
        (
            IpAddrModel { ip_addr, port: m.port, transport: m.transport },
            match step {
                StepView::Item(ip) => StepView::Item(m.target(ip)),
                StepView::Query(query) => StepView::Query(query),
                StepView::Done => StepView::Done,
            },
        )
    }

    open spec fn supplied(m: IpAddrModel, answer: DnsAnswerView) -> IpAddrModel {
        m
    }

    open spec fn stream(m: IpAddrModel, dns: spec_fn(DnsQueryView) -> DnsAnswerView) -> Seq<
        Target,
    > {
        Resolvable::<IpAddr>::stream(m.ip_addr, dns).map_values(|ip: IpAddr| m.target(ip))
    }

    open spec fn bound_by(m: IpAddrModel, p: spec_fn(Target) -> bool) -> bool {
        Resolvable::<IpAddr>::bound_by(m.ip_addr, |ip: IpAddr| p(m.target(ip)))
    }

    proof fn law_bound(m: IpAddrModel, p: spec_fn(Target) -> bool, answer: DnsAnswerView) {
        let q = |ip: IpAddr| p(m.target(ip));
        Resolvable::<IpAddr>::law_bound(m.ip_addr, q, answer);
        let next = Self::advanced(m).0;
        assert((|ip: IpAddr| p(next.target(ip))) =~= q);
    }

    proof fn law_lifecycle(m: IpAddrModel, answer: DnsAnswerView) {
    }

    proof fn law_stream(m: IpAddrModel, dns: spec_fn(DnsQueryView) -> DnsAnswerView) {
        Resolvable::<IpAddr>::law_stream(m.ip_addr, dns);
        let (next, step) = Self::advanced(m);
        let f = |ip: IpAddr| m.target(ip);
        match step {
            StepView::Item(item) => {
                let rest = Resolvable::<IpAddr>::stream(next.ip_addr, dns);
                let ip = Resolvable::<IpAddr>::advanced(m.ip_addr).1->Item_0;
                assert((seq![ip] + rest).map_values(f) =~= seq![item] + rest.map_values(f));
                assert(Self::stream(next, dns) =~= rest.map_values(f));
            },
            StepView::Done => {
                assert(Self::stream(m, dns) =~= Seq::<Target>::empty());
                assert(Self::stream(next, dns) =~= Seq::<Target>::empty());
            },
            StepView::Query(_) => {},
        }
    }
}

impl ResolvableExt<Target> for ResolvableIpAddr {
    fn state(&self) -> (s: ResolvableState) {
        self.ip_addr.state()
    }

    fn advance(&mut self) -> (step: Step<Target>) {
        match self.resolve_next() {
            Some(item) => Step::Item(item),
            None => Step::Done,
        }
    }

    fn supply(&mut self, answer: DnsAnswer) {
    }

    fn resolve_next(&mut self) -> (r: Option<Target>) {
        let r = match self.ip_addr.resolve_next() {
            Some(ip_addr) => Some(Target { ip_addr, port: self.port, transport: self.transport }),
            None => None,
        };
        proof {
            lemma_outcome_without_query::<Self, Target>(old(self).model(), r);
        }
        r
    }
}

} // verus!
