//! The node of an address lookup: a domain, and the targets at its addresses.

use crate::dns_client::{fits, DnsAnswer, DnsAnswerView, DnsClient, DnsQuery, DnsQueryView};
use crate::resolvables::resolvable_vec::{models_of, queue_stream};
use crate::resolvables::outcomes::{lemma_outcome_after_answer, lemma_outcome_lifted};
use crate::resolvables::{
    outcome, step_of, IpAddrModel, ResolvableExt, ResolvableIpAddr, ResolvableSpec,
    ResolvableState, ResolvableVec, Step, StepView,
};
use crate::sip::{Domain, IpAddr, Port, Transport};
use crate::target::Target;
use vstd::prelude::*;

verus! {

/// A domain whose addresses are looked up when the first target is asked
/// for. Every address gives one target, with the node's port and transport,
/// in the order of the DNS answer. A failed lookup gives no target.
#[derive(Debug, Clone)]
pub struct ResolvableAddrRecord<C: DnsClient> {
    dns_client: C,
    domain: Domain,
    port: Port,
    transport: Transport,
    resolvable_ip_addrs: ResolvableVec<ResolvableIpAddr, Target>,
}

/// What a [`ResolvableAddrRecord`] is. `ip_addrs` is `None` until the lookup was made.
pub struct AddrModel {
    pub domain: Seq<char>,
    pub port: Port,
    pub transport: Transport,
    pub ip_addrs: Option<Seq<IpAddrModel>>,
}

/// One fresh address node per address.
pub open spec fn ip_nodes(ips: Seq<IpAddr>, port: Port, transport: Transport) -> Seq<IpAddrModel> {
    ips.map_values(|ip: IpAddr| IpAddrModel::fresh(ip, port, transport))
}

/// One target per address.
pub open spec fn targets_of(ips: Seq<IpAddr>, port: Port, transport: Transport) -> Seq<Target> {
    ips.map_values(|ip: IpAddr| Target { ip_addr: ip, port, transport })
}

/// The addresses that an answer holds: none where the lookup failed or the
/// answer is not one to an address query.
pub open spec fn ips_of_answer(answer: DnsAnswerView) -> Seq<IpAddr> {
    match answer {
        DnsAnswerView::Addr(Some(record)) => record.ip_addrs,
        _ => Seq::empty(),
    }
}

/// The targets at a domain, as `dns` answers.
pub open spec fn addr_targets(
    dns: spec_fn(DnsQueryView) -> DnsAnswerView,
    domain: Seq<char>,
    port: Port,
    transport: Transport,
) -> Seq<Target> {
    targets_of(ips_of_answer(dns(DnsQueryView::Addr(domain))), port, transport)
}

impl AddrModel {
    /// The model of a node before its lookup.
    pub open spec fn fresh(domain: Seq<char>, port: Port, transport: Transport) -> AddrModel {
        AddrModel { domain, port, transport, ip_addrs: None }
    }

    pub open spec fn with(self, ip_addrs: Option<Seq<IpAddrModel>>) -> AddrModel {
        AddrModel { ip_addrs, ..self }
    }
}

/// Fresh address nodes yield their targets in order.
pub proof fn lemma_ip_nodes_stream(
    ips: Seq<IpAddr>,
    port: Port,
    transport: Transport,
    dns: spec_fn(DnsQueryView) -> DnsAnswerView,
)
    ensures
        queue_stream::<ResolvableIpAddr, Target>(ip_nodes(ips, port, transport), dns) == targets_of(
            ips,
            port,
            transport,
        ),
    decreases ips.len(),
{
    let nodes = ip_nodes(ips, port, transport);
    if ips.len() > 0 {
        lemma_ip_nodes_stream(ips.drop_first(), port, transport, dns);
        assert(nodes.drop_first() =~= ip_nodes(ips.drop_first(), port, transport));
        assert(ResolvableIpAddr::stream(nodes[0], dns) =~= seq![
            Target { ip_addr: ips[0], port, transport },
        ]);
        assert(targets_of(ips, port, transport) =~= seq![
            Target { ip_addr: ips[0], port, transport },
        ] + targets_of(ips.drop_first(), port, transport));
    } else {
        assert(targets_of(ips, port, transport) =~= Seq::<Target>::empty());
    }
}

impl<C: DnsClient> ResolvableAddrRecord<C> {
    pub fn new(dns_client: C, domain: Domain, port: Port, transport: Transport) -> (r: Self)
        ensures
            r.model() == AddrModel::fresh(domain@, port, transport),
    {
        ResolvableAddrRecord {
            dns_client,
            domain,
            port,
            transport,
            resolvable_ip_addrs: ResolvableVec::unset(),
        }
    }
}

impl<C: DnsClient> ResolvableSpec<Target> for ResolvableAddrRecord<C> {
    type Model = AddrModel;

    closed spec fn model(&self) -> AddrModel {
        AddrModel {
            domain: self.domain@,
            port: self.port,
            transport: self.transport,
            ip_addrs: self.resolvable_ip_addrs.model(),
        }
    }

    open spec fn state_of(m: AddrModel) -> ResolvableState {
        ResolvableVec::<ResolvableIpAddr, Target>::state_of(m.ip_addrs)
    }

    /// Before the lookup the node asks for the addresses of its domain.
    /// Afterwards it hands out its targets.
    open spec fn advanced(m: AddrModel) -> (AddrModel, StepView<Target>) {
        if m.ip_addrs is None {
            (m, StepView::Query(DnsQueryView::Addr(m.domain)))
        } else {
            let (ip_addrs, step) = ResolvableVec::<ResolvableIpAddr, Target>::advanced(m.ip_addrs);
            (m.with(ip_addrs), step)
        }
    }

    /// The first answer populates the node: one address node per address,
    /// none where the lookup failed. A later answer goes to the address node
    /// in front, which has no use for it.
    open spec fn supplied(m: AddrModel, answer: DnsAnswerView) -> AddrModel {
        if m.ip_addrs is None {
            m.with(Some(ip_nodes(ips_of_answer(answer), m.port, m.transport)))
        } else {
            m.with(ResolvableVec::<ResolvableIpAddr, Target>::supplied(m.ip_addrs, answer))
        }
    }

    open spec fn stream(m: AddrModel, dns: spec_fn(DnsQueryView) -> DnsAnswerView) -> Seq<Target> {
        if m.ip_addrs is None {
            addr_targets(dns, m.domain, m.port, m.transport)
        } else {
            ResolvableVec::<ResolvableIpAddr, Target>::stream(m.ip_addrs, dns)
        }
    }

    /// Before the lookup every address is possible, with the node's port
    /// and transport; afterwards the addresses are those of the address nodes.
    open spec fn bound_by(m: AddrModel, p: spec_fn(Target) -> bool) -> bool {
        if m.ip_addrs is None {
            forall|ip: IpAddr| #[trigger]
                p(Target { ip_addr: ip, port: m.port, transport: m.transport })
        } else {
            ResolvableVec::<ResolvableIpAddr, Target>::bound_by(m.ip_addrs, p)
        }
    }

    proof fn law_bound(m: AddrModel, p: spec_fn(Target) -> bool, answer: DnsAnswerView) {
        if m.ip_addrs is None {
            let nodes = ip_nodes(ips_of_answer(answer), m.port, m.transport);
            assert forall|i: int| 0 <= i < nodes.len() implies ResolvableIpAddr::bound_by(
                #[trigger] nodes[i],
                p,
            ) by {
                let ip = ips_of_answer(answer)[i];
                assert(p(Target { ip_addr: ip, port: m.port, transport: m.transport }));
                assert(nodes[i].ip_addr->NonEmpty_0[0] == ip);
            }
        } else {
            ResolvableVec::<ResolvableIpAddr, Target>::law_bound(m.ip_addrs, p, answer);
        }
    }

    proof fn law_lifecycle(m: AddrModel, answer: DnsAnswerView) {
        ResolvableVec::<ResolvableIpAddr, Target>::law_lifecycle(m.ip_addrs, answer);
    }

    proof fn law_stream(m: AddrModel, dns: spec_fn(DnsQueryView) -> DnsAnswerView) {
        if m.ip_addrs is None {
            let answer = dns(DnsQueryView::Addr(m.domain));
            lemma_ip_nodes_stream(ips_of_answer(answer), m.port, m.transport, dns);
        } else {
            ResolvableVec::<ResolvableIpAddr, Target>::law_stream(m.ip_addrs, dns);
        }
    }
}

impl<C: DnsClient> ResolvableExt<Target> for ResolvableAddrRecord<C> {
    fn state(&self) -> (s: ResolvableState) {
        self.resolvable_ip_addrs.state()
    }

    fn advance(&mut self) -> (step: Step<Target>) {
        if self.resolvable_ip_addrs.is_unset() {
            Step::Query(DnsQuery::Addr(self.domain.clone()))
        } else {
            self.resolvable_ip_addrs.advance()
        }
    }

    fn supply(&mut self, answer: DnsAnswer) {
        if self.resolvable_ip_addrs.is_unset() {
            let port = self.port;
            let transport = self.transport;
            match answer {
                DnsAnswer::Addr(Ok(record)) => {
                    let mut nodes: Vec<ResolvableIpAddr> = Vec::new();
                    let mut i: usize = 0;
                    while i < record.ip_addrs.len()
                        invariant
                            i <= record.ip_addrs.len(),
                            nodes@.len() == i,
                            forall|j: int|
                                0 <= j < i ==> (#[trigger] nodes@[j]).model() == IpAddrModel::fresh(
                                    record.ip_addrs@[j],
                                    port,
                                    transport,
                                ),
                        decreases record.ip_addrs.len() - i,
                    {
                        nodes.push(ResolvableIpAddr::new(record.ip_addrs[i], port, transport));
                        i += 1;
                    }
                    assert(models_of::<ResolvableIpAddr, Target>(nodes@) =~= ip_nodes(
                        record.ip_addrs@,
                        port,
                        transport,
                    ));
                    self.resolvable_ip_addrs = ResolvableVec::non_empty(nodes);
                },
                _ => {
                    assert(ip_nodes(ips_of_answer(answer@), port, transport) =~= Seq::<
                        IpAddrModel,
                    >::empty());
                    self.resolvable_ip_addrs = ResolvableVec::empty();
                },
            }
        } else {
            self.resolvable_ip_addrs.supply(answer);
        }
    }

    /// Makes the address lookup where it was not made yet, and hands out
    /// the next target. Whatever the lookup answers, the call is the step
    /// that follows the answer.
    fn resolve_next(&mut self) -> (r: Option<Target>)
        ensures
            old(self).model().ip_addrs is None ==> exists|answer: DnsAnswerView|
                {
                    &&& fits(DnsQueryView::Addr(old(self).model().domain), answer)
                    &&& final(self).model() == Self::advanced(
                        #[trigger] Self::supplied(old(self).model(), answer),
                    ).0
                    &&& step_of(r) == Self::advanced(Self::supplied(old(self).model(), answer)).1
                },
    {
        let ghost start = self.model();
        let ghost mut asked: Seq<DnsAnswerView> = Seq::empty();
        proof {
            Self::law_lifecycle(start, arbitrary());
        }
        if self.resolvable_ip_addrs.is_unset() {
            let answer = DnsAnswer::Addr(self.dns_client.ip_lookup(self.domain.clone()));
            proof {
                asked = seq![answer@];
            }
            self.supply(answer);
        }
        let ghost populated = self.model();
        proof {
            lemma_address_queue_needs_no_query(populated.ip_addrs->0);
        }
        let r = self.resolvable_ip_addrs.resolve_next();
        proof {
            let given = choose|given: Seq<DnsAnswerView>|
                outcome::<ResolvableVec<ResolvableIpAddr, Target>, Target>(populated.ip_addrs, given)
                    == Some((self.model().ip_addrs, r));
            lemma_populated_outcome::<C>(populated, given);
            if start.ip_addrs is None {
                lemma_outcome_after_answer::<Self, Target>(start, asked[0], given);
                assert(fits(DnsQueryView::Addr(start.domain), asked[0]));
                assert(self.model() == Self::advanced(Self::supplied(start, asked[0])).0);
            } else {
                assert(asked + given =~= given);
            }
            assert(outcome::<Self, Target>(start, asked + given) == Some((self.model(), r)));
        }
        r
    }
}

/// A node whose addresses are known comes to what its queue of address nodes comes to.
pub proof fn lemma_populated_outcome<C: DnsClient>(m: AddrModel, given: Seq<DnsAnswerView>)
    requires
        m.ip_addrs is Some,
    ensures
        outcome::<ResolvableAddrRecord<C>, Target>(m, given) == (match outcome::<
            ResolvableVec<ResolvableIpAddr, Target>,
            Target,
        >(m.ip_addrs, given) {
            Some((after, r)) => Some((m.with(after), r)),
            None => None,
        }),
{
    let wrap = |x: Option<Seq<IpAddrModel>>| m.with(x);
    let good = |x: Option<Seq<IpAddrModel>>| x is Some;
    assert(wrap(m.ip_addrs) == m);
    lemma_outcome_lifted::<
        ResolvableAddrRecord<C>,
        ResolvableVec<ResolvableIpAddr, Target>,
        Target,
    >(wrap, good, m.ip_addrs, given);
}

/// A queue of address nodes never asks a query.
pub proof fn lemma_address_queue_needs_no_query(queue: Seq<IpAddrModel>)
    ensures
        !(crate::resolvables::resolvable_vec::queue_advanced::<ResolvableIpAddr, Target>(queue).1
            is Query),
    decreases queue.len(),
{
    if queue.len() > 0 {
        lemma_address_queue_needs_no_query(queue.drop_first());
    }
}

} // verus!
