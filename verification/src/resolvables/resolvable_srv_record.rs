//! The node of an SRV lookup: a name, and the address lookups of its entries.

use crate::dns_client::{DnsAnswer, DnsAnswerView, DnsClient, DnsQuery, DnsQueryView};
use crate::resolvables::outcomes::{lemma_outcome_after_answer, lemma_outcome_lifted};
use crate::records::{SrvDomain, SrvDomainView, SrvEntryView};
use crate::resolvables::resolvable_vec::{models_of, queue_stream};
use crate::resolvables::{
    outcome, AddrModel, ResolvableAddrRecord, ResolvableExt, ResolvableSpec, ResolvableState,
    ResolvableVec, Step, StepView,
};
use crate::sip::Transport;
use crate::target::Target;
use vstd::prelude::*;

verus! {

/// An SRV name whose records are looked up when the first target is asked
/// for. Every entry gives one address lookup, for the entry's target and
/// port and with the transport of the name, in the order of the DNS answer.
/// A lookup without result gives no target.
#[derive(Debug, Clone)]
pub struct ResolvableSrvRecord<C: DnsClient> {
    dns_client: C,
    domain: SrvDomain,
    resolvable_addr_records: ResolvableVec<ResolvableAddrRecord<C>, Target>,
}

/// What a [`ResolvableSrvRecord`] is. `addr_records` is `None` until the lookup was made.
pub struct SrvModel {
    pub domain: SrvDomainView,
    pub addr_records: Option<Seq<AddrModel>>,
}

/// One fresh address lookup per entry.
pub open spec fn addr_nodes(entries: Seq<SrvEntryView>, transport: Transport) -> Seq<AddrModel> {
    entries.map_values(|e: SrvEntryView| AddrModel::fresh(e.target, e.port, transport))
}

/// The entries that an answer holds: none where nothing was found or the
/// answer is not one to an SRV query.
pub open spec fn entries_of_answer(answer: DnsAnswerView) -> Seq<SrvEntryView> {
    match answer {
        DnsAnswerView::Srv(Some(record)) => record.entries,
        _ => Seq::empty(),
    }
}

/// The targets under an SRV name, as `dns` answers: those of the first
/// entry, then those of the second, and so on.
pub open spec fn srv_targets<C: DnsClient>(
    dns: spec_fn(DnsQueryView) -> DnsAnswerView,
    domain: SrvDomainView,
) -> Seq<Target> {
    queue_stream::<ResolvableAddrRecord<C>, Target>(
        addr_nodes(entries_of_answer(dns(DnsQueryView::Srv(domain))), domain.transport()),
        dns,
    )
}

impl SrvModel {
    /// The model of a node before its lookup.
    pub open spec fn fresh(domain: SrvDomainView) -> SrvModel {
        SrvModel { domain, addr_records: None }
    }

    pub open spec fn with(self, addr_records: Option<Seq<AddrModel>>) -> SrvModel {
        SrvModel { addr_records, ..self }
    }
}

impl<C: DnsClient> ResolvableSrvRecord<C> {
    pub fn new(dns_client: C, domain: SrvDomain) -> (r: Self)
        ensures
            r.model() == SrvModel::fresh(domain@),
    {
        ResolvableSrvRecord { dns_client, domain, resolvable_addr_records: ResolvableVec::unset() }
    }
}

impl<C: DnsClient> ResolvableSpec<Target> for ResolvableSrvRecord<C> {
    type Model = SrvModel;

    closed spec fn model(&self) -> SrvModel {
        SrvModel { domain: self.domain@, addr_records: self.resolvable_addr_records.model() }
    }

    open spec fn state_of(m: SrvModel) -> ResolvableState {
        ResolvableVec::<ResolvableAddrRecord<C>, Target>::state_of(m.addr_records)
    }

    /// Before the lookup the node asks for the SRV records of its name.
    /// Afterwards it steps through its address lookups.
    open spec fn advanced(m: SrvModel) -> (SrvModel, StepView<Target>) {
        if m.addr_records is None {
            (m, StepView::Query(DnsQueryView::Srv(m.domain)))
        } else {
            let (addr_records, step) = ResolvableVec::<ResolvableAddrRecord<C>, Target>::advanced(
                m.addr_records,
            );
            (m.with(addr_records), step)
        }
    }

    /// The first answer populates the node: one address lookup per entry,
    /// none where nothing was found. A later answer goes to the address
    /// lookup in front.
    open spec fn supplied(m: SrvModel, answer: DnsAnswerView) -> SrvModel {
        if m.addr_records is None {
            m.with(Some(addr_nodes(entries_of_answer(answer), m.domain.transport())))
        } else {
            m.with(ResolvableVec::<ResolvableAddrRecord<C>, Target>::supplied(m.addr_records, answer))
        }
    }

    open spec fn stream(m: SrvModel, dns: spec_fn(DnsQueryView) -> DnsAnswerView) -> Seq<Target> {
        if m.addr_records is None {
            srv_targets::<C>(dns, m.domain)
        } else {
            ResolvableVec::<ResolvableAddrRecord<C>, Target>::stream(m.addr_records, dns)
        }
    }

    /// Before the lookup every address and every port is possible, with
    /// the transport of the name; afterwards what the address lookups allow.
    open spec fn bound_by(m: SrvModel, p: spec_fn(Target) -> bool) -> bool {
        if m.addr_records is None {
            forall|ip: crate::sip::IpAddr, port: crate::sip::Port| #[trigger]
                p(Target { ip_addr: ip, port, transport: m.domain.transport() })
        } else {
            ResolvableVec::<ResolvableAddrRecord<C>, Target>::bound_by(m.addr_records, p)
        }
    }

    proof fn law_bound(m: SrvModel, p: spec_fn(Target) -> bool, answer: DnsAnswerView) {
        if m.addr_records is None {
            let transport = m.domain.transport();
            let nodes = addr_nodes(entries_of_answer(answer), transport);
            assert forall|i: int| 0 <= i < nodes.len() implies ResolvableAddrRecord::<C>::bound_by(
                #[trigger] nodes[i],
                p,
            ) by {
                let port = entries_of_answer(answer)[i].port;
                assert forall|ip: crate::sip::IpAddr| #[trigger]
                    p(Target { ip_addr: ip, port, transport }) by {}
            }
        } else {
            ResolvableVec::<ResolvableAddrRecord<C>, Target>::law_bound(m.addr_records, p, answer);
        }
    }

    proof fn law_lifecycle(m: SrvModel, answer: DnsAnswerView) {
        ResolvableVec::<ResolvableAddrRecord<C>, Target>::law_lifecycle(m.addr_records, answer);
    }

    proof fn law_stream(m: SrvModel, dns: spec_fn(DnsQueryView) -> DnsAnswerView) {
        ResolvableVec::<ResolvableAddrRecord<C>, Target>::law_stream(m.addr_records, dns);
    }
}

impl<C: DnsClient> ResolvableExt<Target> for ResolvableSrvRecord<C> {
    fn state(&self) -> (s: ResolvableState) {
        self.resolvable_addr_records.state()
    }

    fn advance(&mut self) -> (step: Step<Target>) {
        if self.resolvable_addr_records.is_unset() {
            Step::Query(DnsQuery::Srv(self.domain.clone()))
        } else {
            self.resolvable_addr_records.advance()
        }
    }

    fn supply(&mut self, answer: DnsAnswer) {
        if self.resolvable_addr_records.is_unset() {
            let transport = self.domain.transport();
            match answer {
                DnsAnswer::Srv(Some(record)) => {
                    let mut nodes: Vec<ResolvableAddrRecord<C>> = Vec::new();
                    let mut i: usize = 0;
                    while i < record.entries.len()
                        invariant
                            i <= record.entries.len(),
                            nodes@.len() == i,
                            forall|j: int|
                                0 <= j < i ==> (#[trigger] nodes@[j]).model() == AddrModel::fresh(
                                    record.entries@[j].target@,
                                    record.entries@[j].port,
                                    transport,
                                ),
                        decreases record.entries.len() - i,
                    {
                        nodes.push(
                            ResolvableAddrRecord::new(
                                self.dns_client.clone(),
                                record.entries[i].target.clone(),
                                record.entries[i].port,
                                transport,
                            ),
                        );
                        i += 1;
                    }
                    assert(models_of::<ResolvableAddrRecord<C>, Target>(nodes@) =~= addr_nodes(
                        entries_of_answer(answer@),
                        transport,
                    ));
                    self.resolvable_addr_records = ResolvableVec::non_empty(nodes);
                },
                _ => {
                    assert(addr_nodes(entries_of_answer(answer@), transport) =~= Seq::<
                        AddrModel,
                    >::empty());
                    self.resolvable_addr_records = ResolvableVec::empty();
                },
            }
        } else {
            self.resolvable_addr_records.supply(answer);
        }
    }

    fn resolve_next(&mut self) -> (r: Option<Target>) {
        let ghost start = self.model();
        let ghost mut asked: Seq<DnsAnswerView> = Seq::empty();
        proof {
            Self::law_lifecycle(start, arbitrary());
        }
        if self.resolvable_addr_records.is_unset() {
            let answer = DnsAnswer::Srv(self.dns_client.srv_lookup(self.domain.clone()));
            proof {
                asked = seq![answer@];
            }
            self.supply(answer);
        }
        let ghost populated = self.model();
        let r = self.resolvable_addr_records.resolve_next();
        proof {
            let given = choose|given: Seq<DnsAnswerView>|
                outcome::<ResolvableVec<ResolvableAddrRecord<C>, Target>, Target>(
                    populated.addr_records,
                    given,
                ) == Some((self.model().addr_records, r));
            lemma_populated_outcome::<C>(populated, given);
            if start.addr_records is None {
                lemma_outcome_after_answer::<Self, Target>(start, asked[0], given);
            } else {
                assert(asked + given =~= given);
            }
            assert(outcome::<Self, Target>(start, asked + given) == Some((self.model(), r)));
        }
        r
    }
}

/// A node whose entries are known comes to what its queue of address lookups comes to.
pub proof fn lemma_populated_outcome<C: DnsClient>(m: SrvModel, given: Seq<DnsAnswerView>)
    requires
        m.addr_records is Some,
    ensures
        outcome::<ResolvableSrvRecord<C>, Target>(m, given) == (match outcome::<
            ResolvableVec<ResolvableAddrRecord<C>, Target>,
            Target,
        >(m.addr_records, given) {
            Some((after, r)) => Some((m.with(after), r)),
            None => None,
        }),
{
    let wrap = |x: Option<Seq<AddrModel>>| m.with(x);
    let good = |x: Option<Seq<AddrModel>>| x is Some;
    assert(wrap(m.addr_records) == m);
    lemma_outcome_lifted::<
        ResolvableSrvRecord<C>,
        ResolvableVec<ResolvableAddrRecord<C>, Target>,
        Target,
    >(wrap, good, m.addr_records, given);
}

} // verus!
