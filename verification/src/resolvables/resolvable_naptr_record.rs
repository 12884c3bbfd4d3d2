//! The node of a NAPTR lookup: a domain, and the SRV lookups that its
//! NAPTR records point to.

use crate::dns_client::{DnsAnswer, DnsAnswerView, DnsClient, DnsQuery, DnsQueryView};
use crate::resolvables::outcomes::{lemma_outcome_after_answer, lemma_outcome_lifted};
use crate::records::{
    srv_domain_of_entry, NaptrEntryView, NaptrFlags, SrvDomain, SrvDomainView,
};
use crate::resolvables::resolvable_vec::{models_of, queue_stream};
use crate::resolvables::{
    outcome, ResolvableExt, ResolvableSpec, ResolvableSrvRecord, ResolvableState, ResolvableVec,
    SrvModel, Step, StepView,
};
use crate::sip::{contains_transport, Domain, Transport};
use crate::target::Target;
use vstd::prelude::*;

verus! {

/// A domain whose NAPTR records are looked up when the first target is
/// asked for. An entry counts where its flag is `S` and its service stands
/// for one of the transports that the node was made with. Every such entry
/// gives one SRV lookup, in the order of the DNS answer. A lookup without
/// result gives no target.
#[derive(Debug, Clone)]
pub struct ResolvableNaptrRecord<C: DnsClient> {
    dns_client: C,
    domain: Domain,
    available_transports: Vec<Transport>,
    resolvable_srv_records: ResolvableVec<ResolvableSrvRecord<C>, Target>,
}

/// What a [`ResolvableNaptrRecord`] is. `srv_records` is `None` until the lookup was made.
pub struct NaptrModel {
    pub domain: Seq<char>,
    pub available_transports: Seq<Transport>,
    pub srv_records: Option<Seq<SrvModel>>,
}

/// Whether an entry leads to an SRV lookup: its flag is `S`, and its service
/// stands for a transport that is available.
pub open spec fn entry_counts(entry: NaptrEntryView, available: Seq<Transport>) -> bool {
    entry.flags is S && match entry.services.spec_transport() {
        Some(transport) => available.contains(transport),
        None => false,
    }
}

/// The SRV names of the entries that count, in the order of the entries.
pub open spec fn srv_names(entries: Seq<NaptrEntryView>, available: Seq<Transport>) -> Seq<
    SrvDomainView,
>
    decreases entries.len(),
{
    if entries.len() == 0 {
        Seq::empty()
    } else {
        let before = srv_names(entries.drop_last(), available);
        if entry_counts(entries.last(), available) {
            before.push(srv_domain_of_entry(entries.last())->0)
        } else {
            before
        }
    }
}

/// Every SRV name of a NAPTR answer stands for an available transport.
pub proof fn lemma_srv_names_transports(entries: Seq<NaptrEntryView>, available: Seq<Transport>)
    ensures
        forall|i: int|
            0 <= i < srv_names(entries, available).len() ==> available.contains(
                (#[trigger] srv_names(entries, available)[i]).transport(),
            ),
    decreases entries.len(),
{
    if entries.len() > 0 {
        lemma_srv_names_transports(entries.drop_last(), available);
    }
}

/// One fresh SRV lookup per name.
pub open spec fn srv_nodes(names: Seq<SrvDomainView>) -> Seq<SrvModel> {
    names.map_values(|name: SrvDomainView| SrvModel::fresh(name))
}

/// The entries that an answer holds: none where nothing was found or the
/// answer is not one to a NAPTR query.
pub open spec fn naptr_entries_of_answer(answer: DnsAnswerView) -> Seq<NaptrEntryView> {
    match answer {
        DnsAnswerView::Naptr(Some(record)) => record.entries,
        _ => Seq::empty(),
    }
}

/// The targets that the NAPTR records of a domain lead to, as `dns` answers.
pub open spec fn naptr_targets<C: DnsClient>(
    dns: spec_fn(DnsQueryView) -> DnsAnswerView,
    domain: Seq<char>,
    available: Seq<Transport>,
) -> Seq<Target> {
    queue_stream::<ResolvableSrvRecord<C>, Target>(
        srv_nodes(
            srv_names(naptr_entries_of_answer(dns(DnsQueryView::Naptr(domain))), available),
        ),
        dns,
    )
}

impl NaptrModel {
    /// The model of a node before its lookup.
    pub open spec fn fresh(domain: Seq<char>, available_transports: Seq<Transport>) -> NaptrModel {
        NaptrModel { domain, available_transports, srv_records: None }
    }

    pub open spec fn with(self, srv_records: Option<Seq<SrvModel>>) -> NaptrModel {
        NaptrModel { srv_records, ..self }
    }
}

impl<C: DnsClient> ResolvableNaptrRecord<C> {
    pub fn new(dns_client: C, domain: Domain, available_transports: Vec<Transport>) -> (r: Self)
        ensures
            r.model() == NaptrModel::fresh(domain@, available_transports@),
    {
        ResolvableNaptrRecord {
            dns_client,
            domain,
            available_transports,
            resolvable_srv_records: ResolvableVec::unset(),
        }
    }
}

impl<C: DnsClient> ResolvableSpec<Target> for ResolvableNaptrRecord<C> {
    type Model = NaptrModel;

    closed spec fn model(&self) -> NaptrModel {
        NaptrModel {
            domain: self.domain@,
            available_transports: self.available_transports@,
            srv_records: self.resolvable_srv_records.model(),
        }
    }

    open spec fn state_of(m: NaptrModel) -> ResolvableState {
        ResolvableVec::<ResolvableSrvRecord<C>, Target>::state_of(m.srv_records)
    }

    /// Before the lookup the node asks for the NAPTR records of its domain.
    /// Afterwards it steps through its SRV lookups.
    open spec fn advanced(m: NaptrModel) -> (NaptrModel, StepView<Target>) {
        if m.srv_records is None {
            (m, StepView::Query(DnsQueryView::Naptr(m.domain)))
        } else {
            let (srv_records, step) = ResolvableVec::<ResolvableSrvRecord<C>, Target>::advanced(
                m.srv_records,
            );
            (m.with(srv_records), step)
        }
    }

    /// The first answer populates the node: one SRV lookup per entry that
    /// counts, none where nothing was found. A later answer goes to the SRV
    /// lookup in front.
    open spec fn supplied(m: NaptrModel, answer: DnsAnswerView) -> NaptrModel {
        if m.srv_records is None {
            m.with(
                Some(srv_nodes(srv_names(naptr_entries_of_answer(answer), m.available_transports))),
            )
        } else {
            m.with(ResolvableVec::<ResolvableSrvRecord<C>, Target>::supplied(m.srv_records, answer))
        }
    }

    open spec fn stream(m: NaptrModel, dns: spec_fn(DnsQueryView) -> DnsAnswerView) -> Seq<Target> {
        if m.srv_records is None {
            naptr_targets::<C>(dns, m.domain, m.available_transports)
        } else {
            ResolvableVec::<ResolvableSrvRecord<C>, Target>::stream(m.srv_records, dns)
        }
    }

    /// Before the lookup every address and every port is possible, with
    /// any of the available transports; afterwards what the SRV lookups allow.
    open spec fn bound_by(m: NaptrModel, p: spec_fn(Target) -> bool) -> bool {
        if m.srv_records is None {
            forall|ip: crate::sip::IpAddr, port: crate::sip::Port, transport: Transport|
                m.available_transports.contains(transport) ==> #[trigger] p(
                    Target { ip_addr: ip, port, transport },
                )
        } else {
            ResolvableVec::<ResolvableSrvRecord<C>, Target>::bound_by(m.srv_records, p)
        }
    }

    proof fn law_bound(m: NaptrModel, p: spec_fn(Target) -> bool, answer: DnsAnswerView) {
        if m.srv_records is None {
            let names = srv_names(naptr_entries_of_answer(answer), m.available_transports);
            let nodes = srv_nodes(names);
            lemma_srv_names_transports(naptr_entries_of_answer(answer), m.available_transports);
            assert forall|i: int| 0 <= i < nodes.len() implies ResolvableSrvRecord::<C>::bound_by(
                #[trigger] nodes[i],
                p,
            ) by {
                let transport = names[i].transport();
                assert(m.available_transports.contains(transport));
                assert forall|ip: crate::sip::IpAddr, port: crate::sip::Port| #[trigger]
                    p(Target { ip_addr: ip, port, transport }) by {}
            }
        } else {
            ResolvableVec::<ResolvableSrvRecord<C>, Target>::law_bound(m.srv_records, p, answer);
        }
    }

    proof fn law_lifecycle(m: NaptrModel, answer: DnsAnswerView) {
        ResolvableVec::<ResolvableSrvRecord<C>, Target>::law_lifecycle(m.srv_records, answer);
    }

    proof fn law_stream(m: NaptrModel, dns: spec_fn(DnsQueryView) -> DnsAnswerView) {
        ResolvableVec::<ResolvableSrvRecord<C>, Target>::law_stream(m.srv_records, dns);
    }
}

impl<C: DnsClient> ResolvableExt<Target> for ResolvableNaptrRecord<C> {
    fn state(&self) -> (s: ResolvableState) {
        self.resolvable_srv_records.state()
    }

    fn advance(&mut self) -> (step: Step<Target>) {
        if self.resolvable_srv_records.is_unset() {
            Step::Query(DnsQuery::Naptr(self.domain.clone()))
        } else {
            self.resolvable_srv_records.advance()
        }
    }

    fn supply(&mut self, answer: DnsAnswer) {
        if self.resolvable_srv_records.is_unset() {
            match answer {
                DnsAnswer::Naptr(Some(record)) => {
                    let ghost entries = naptr_entries_of_answer(answer@);
                    let ghost available = self.available_transports@;
                    let mut nodes: Vec<ResolvableSrvRecord<C>> = Vec::new();
                    let mut i: usize = 0;
                    assert(entries.take(0) =~= Seq::<NaptrEntryView>::empty());
                    while i < record.entries.len()
                        invariant
                            i <= record.entries.len(),
                            entries.len() == record.entries@.len(),
                            forall|j: int|
                                0 <= j < entries.len() ==> #[trigger] entries[j]
                                    == record.entries@[j]@,
                            available == self.available_transports@,
                            models_of::<ResolvableSrvRecord<C>, Target>(nodes@) == srv_nodes(
                                srv_names(entries.take(i as int), available),
                            ),
                        decreases record.entries.len() - i,
                    {
                        let entry = &record.entries[i];
                        let ghost seen = entries.take(i as int);
                        let ghost names = srv_names(seen, available);
                        assert(entries.take(i + 1).drop_last() =~= seen);
                        assert(entries.take(i + 1).last() == entry@);
                        let counts = match &entry.flags {
                            NaptrFlags::S => match entry.services.transport() {
                                Some(transport) => contains_transport(
                                    &self.available_transports,
                                    transport,
                                ),
                                None => false,
                            },
                            _ => false,
                        };
                        if counts {
                            match SrvDomain::try_from_naptr_entry(entry) {
                                Ok(name) => {
                                    let ghost listed = nodes@;
                                    let node = ResolvableSrvRecord::new(
                                        self.dns_client.clone(),
                                        name,
                                    );
                                    nodes.push(node);
                                    assert(models_of::<ResolvableSrvRecord<C>, Target>(nodes@)
                                        =~= models_of::<ResolvableSrvRecord<C>, Target>(
                                        listed,
                                    ).push(node.model()));
                                    assert(srv_nodes(names.push(name@)) =~= srv_nodes(names).push(
                                        SrvModel::fresh(name@),
                                    ));
                                },
                                Err(_) => {},
                            }
                        }
                        i += 1;
                    }
                    assert(entries.take(i as int) =~= entries);
                    self.resolvable_srv_records = ResolvableVec::non_empty(nodes);
                },
                _ => {
                    assert(srv_nodes(
                        srv_names(naptr_entries_of_answer(answer@), self.available_transports@),
                    ) =~= Seq::<SrvModel>::empty());
                    self.resolvable_srv_records = ResolvableVec::empty();
                },
            }
        } else {
            self.resolvable_srv_records.supply(answer);
        }
    }

    fn resolve_next(&mut self) -> (r: Option<Target>) {
        let ghost start = self.model();
        let ghost mut asked: Seq<DnsAnswerView> = Seq::empty();
        proof {
            Self::law_lifecycle(start, arbitrary());
        }
        if self.resolvable_srv_records.is_unset() {
            let answer = DnsAnswer::Naptr(self.dns_client.naptr_lookup(self.domain.clone()));
            proof {
                asked = seq![answer@];
            }
            self.supply(answer);
        }
        let ghost populated = self.model();
        let r = self.resolvable_srv_records.resolve_next();
        proof {
            let given = choose|given: Seq<DnsAnswerView>|
                outcome::<ResolvableVec<ResolvableSrvRecord<C>, Target>, Target>(
                    populated.srv_records,
                    given,
                ) == Some((self.model().srv_records, r));
            lemma_populated_outcome::<C>(populated, given);
            if start.srv_records is None {
                lemma_outcome_after_answer::<Self, Target>(start, asked[0], given);
            } else {
                assert(asked + given =~= given);
            }
            assert(outcome::<Self, Target>(start, asked + given) == Some((self.model(), r)));
        }
        r
    }
}

/// A node whose entries are known comes to what its queue of SRV lookups comes to.
pub proof fn lemma_populated_outcome<C: DnsClient>(m: NaptrModel, given: Seq<DnsAnswerView>)
    requires
        m.srv_records is Some,
    ensures
        outcome::<ResolvableNaptrRecord<C>, Target>(m, given) == (match outcome::<
            ResolvableVec<ResolvableSrvRecord<C>, Target>,
            Target,
        >(m.srv_records, given) {
            Some((after, r)) => Some((m.with(after), r)),
            None => None,
        }),
{
    let wrap = |x: Option<Seq<SrvModel>>| m.with(x);
    let good = |x: Option<Seq<SrvModel>>| x is Some;
    assert(wrap(m.srv_records) == m);
    lemma_outcome_lifted::<
        ResolvableNaptrRecord<C>,
        ResolvableVec<ResolvableSrvRecord<C>, Target>,
        Target,
    >(wrap, good, m.srv_records, given);
}

} // verus!
