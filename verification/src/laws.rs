//! What holds of every lookup, whatever DNS answers.
//!
//! The laws speak of models: of what [`ResolvableExt::advance`] and
//! [`ResolvableExt::supply`] do to a node, and of the stream of targets that
//! a node yields when its queries are answered by a given `dns`.

use crate::context::{available_transports_of, default_transport_of, lemma_only_those, mismatched};
use crate::dns_client::{DnsAnswerView, DnsClient, DnsQueryView};
use crate::lookup::{
    domain_branches, lookup_model, port_of, srv_branches, srv_name_for, transport_branches, Lookup,
    LookupModel,
};
use crate::records::{
    parse_srv_name, secure_of_scheme_token, srv_domain_of_entry, transport_of_token,
    NaptrEntryView, SrvDomainView, SrvEntryView,
};
use crate::resolvables::resolvable_addr_record::{
    addr_targets, ips_of_answer, lemma_address_queue_needs_no_query, targets_of,
};
use crate::resolvables::resolvable_naptr_record::{
    entry_counts, lemma_srv_names_transports, naptr_entries_of_answer, naptr_targets, srv_names,
    srv_nodes,
};
use crate::resolvables::resolvable_srv_record::{addr_nodes, entries_of_answer, srv_targets};
use crate::resolvables::resolvable_vec::queue_stream;
use crate::resolvables::{
    outcome, ResolvableAddrRecord, ResolvableEnum, ResolvableExt, ResolvableItem, ResolvableSpec,
    ResolvableSrvRecord, StepView,
};
use crate::sip::{Domain, Host, IpAddr, Port, Transport};
use crate::target::Target;
use crate::text::{first_dot, lemma_first_dot_of_joined, split_label};
use vstd::prelude::*;

verus! {

/// Exhaustion is stable: a node that had nothing to hand out is `Empty`,
/// and from then on every step hands out nothing and every answer leaves it
/// `Empty`.
pub proof fn law_exhaustion_is_stable<T: ResolvableExt<I>, I: ResolvableItem>(
    m: T::Model,
    answer: DnsAnswerView,
)
    requires
        T::advanced(m).1 is Done || T::state_of(m) is Empty,
    ensures
        T::advanced(m).1 is Done,
        T::state_of(T::advanced(m).0) is Empty,
        T::advanced(T::advanced(m).0).1 is Done,
        T::state_of(T::supplied(T::advanced(m).0, answer)) is Empty,
        T::advanced(T::supplied(T::advanced(m).0, answer)).1 is Done,
{
    T::law_lifecycle(m, answer);
    T::law_lifecycle(T::advanced(m).0, answer);
    T::law_lifecycle(T::supplied(T::advanced(m).0, answer), answer);
}

/// Whether every answer of `given` is what `dns` answers to the query that it is given for.
pub open spec fn answered_by<T: ResolvableSpec<I>, I: ResolvableItem>(
    m: T::Model,
    given: Seq<DnsAnswerView>,
    dns: spec_fn(DnsQueryView) -> DnsAnswerView,
) -> bool
    decreases given.len(),
{
    match T::advanced(m).1 {
        StepView::Query(query) => given.len() > 0 ==> given[0] == dns(query) && answered_by::<T, I>(
            T::supplied(T::advanced(m).0, given[0]),
            given.drop_first(),
            dns,
        ),
        _ => true,
    }
}

/// What `resolve_next` returns is the head of the stream. Where the
/// queries of a call are answered as `dns` says, the item that the call
/// comes to is the first of the node's stream under `dns`, and the stream
/// afterwards is the rest; a call that comes to nothing leaves an empty stream.
pub proof fn law_outcome_follows_stream<T: ResolvableSpec<I>, I: ResolvableItem>(
    m: T::Model,
    given: Seq<DnsAnswerView>,
    dns: spec_fn(DnsQueryView) -> DnsAnswerView,
)
    requires
        answered_by::<T, I>(m, given, dns),
    ensures
        match outcome::<T, I>(m, given) {
            Some((after, Some(item))) => T::stream(m, dns) == seq![item] + T::stream(after, dns),
            Some((after, None)) => T::stream(m, dns) == Seq::<I>::empty() && T::stream(after, dns)
                == Seq::<I>::empty(),
            None => true,
        },
    decreases given.len(),
{
    T::law_stream(m, dns);
    match T::advanced(m).1 {
        StepView::Query(query) => {
            if given.len() > 0 && crate::dns_client::fits(query, given[0]) {
                law_outcome_follows_stream::<T, I>(
                    T::supplied(T::advanced(m).0, given[0]),
                    given.drop_first(),
                    dns,
                );
            }
        },
        _ => {},
    }
}

/// A bound holds of whatever `resolve_next` comes to: of the item, and of
/// the node afterwards, whatever was answered to the queries of the call.
pub proof fn law_bound_holds_of_outcomes<T: ResolvableSpec<I>, I: ResolvableItem>(
    m: T::Model,
    p: spec_fn(I) -> bool,
    given: Seq<DnsAnswerView>,
)
    requires
        T::bound_by(m, p),
    ensures
        match outcome::<T, I>(m, given) {
            Some((after, r)) => T::bound_by(after, p) && (r matches Some(item) ==> p(item)),
            None => true,
        },
    decreases given.len(),
{
    T::law_bound(m, p, arbitrary());
    match T::advanced(m).1 {
        StepView::Query(query) => {
            if given.len() > 0 {
                T::law_bound(T::advanced(m).0, p, given[0]);
                law_bound_holds_of_outcomes::<T, I>(
                    T::supplied(T::advanced(m).0, given[0]),
                    p,
                    given.drop_first(),
                );
            }
        },
        _ => {},
    }
}

/// Secure filter, whatever DNS answers and however its answers change. Of
/// the lookup of a secure context that names no insecure transport, the
/// bound holds that every target has a secure transport.
pub proof fn law_secure_bound<C: DnsClient>(
    host: Host,
    port: Option<Port>,
    transport: Option<Transport>,
    supported: Seq<Transport>,
)
    requires
        !mismatched(true, transport),
    ensures
        Lookup::<C>::bound_by(
            lookup_model(true, host, port, transport, supported),
            |t: Target| t.transport.spec_is_secure(),
        ),
{
    let p = |t: Target| t.transport.spec_is_secure();
    let m = lookup_model(true, host, port, transport, supported);
    match host {
        Host::IpAddr(ip_addr) => {
            let chosen = default_transport_of(true, transport);
            let target = Target { ip_addr, port: port_of(port, chosen), transport: chosen };
            assert(p(target));
        },
        Host::Domain(domain) => {
            match (port, transport) {
                (Some(port), _) => {},
                (None, Some(transport)) => {
                    let name = srv_name_for(domain@, transport, true);
                    assert(name.transport() == transport);
                },
                (None, None) => {
                    let available = available_transports_of(true, supported);
                    lemma_only_those(supported, Transport::spec_secure_transports());
                    assert forall|t: Transport| available.contains(t) implies t.spec_is_secure() by {
                        let s = Transport::spec_secure_transports();
                        let k = choose|k: int| 0 <= k < s.len() && s[k] == t;
                    }
                    let branches = domain_branches(domain@, available, true);
                    assert forall|i: int| 0 <= i < branches.len() implies ResolvableEnum::<
                        C,
                    >::bound_by(#[trigger] branches[i], p) by {
                        if 0 < i && i <= available.len() {
                            let t = available[i - 1];
                            assert(available.contains(t));
                            assert(srv_name_for(domain@, t, true).transport() == t);
                        }
                    }
                },
            }
        },
    }
}

/// A node's state goes from `Unset` over `NonEmpty` to `Empty` and never back.
pub proof fn law_state_never_goes_back<T: ResolvableExt<I>, I: ResolvableItem>(
    m: T::Model,
    answer: DnsAnswerView,
)
    ensures
        T::state_of(T::advanced(m).0).rank() >= T::state_of(m).rank(),
        T::state_of(T::supplied(m, answer)).rank() >= T::state_of(m).rank(),
        T::state_of(m) is Empty ==> T::state_of(T::advanced(m).0) is Empty && T::state_of(
            T::supplied(m, answer),
        ) is Empty,
        !(T::state_of(m) is Unset) ==> !(T::state_of(T::advanced(m).0) is Unset) && !(T::state_of(
            T::supplied(m, answer),
        ) is Unset),
{
    T::law_lifecycle(m, answer);
}

/// The streams of two queues, one after the other, are the stream of the joined queue.
pub proof fn lemma_queue_stream_joined<T: ResolvableExt<I>, I: ResolvableItem>(
    a: Seq<T::Model>,
    b: Seq<T::Model>,
    dns: spec_fn(DnsQueryView) -> DnsAnswerView,
)
    ensures
        queue_stream::<T, I>(a + b, dns) == queue_stream::<T, I>(a, dns) + queue_stream::<T, I>(
            b,
            dns,
        ),
    decreases a.len(),
{
    if a.len() == 0 {
        assert(a + b =~= b);
        assert(queue_stream::<T, I>(a, dns) + queue_stream::<T, I>(b, dns) =~= queue_stream::<T, I>(
            b,
            dns,
        ));
    } else {
        lemma_queue_stream_joined::<T, I>(a.drop_first(), b, dns);
        assert((a + b).drop_first() =~= a.drop_first() + b);
        assert(queue_stream::<T, I>(a + b, dns) =~= queue_stream::<T, I>(a, dns) + queue_stream::<
            T,
            I,
        >(b, dns));
    }
}

/// The stream of a queue of one node is the stream of that node.
pub proof fn lemma_queue_stream_of_one<T: ResolvableExt<I>, I: ResolvableItem>(
    node: T::Model,
    dns: spec_fn(DnsQueryView) -> DnsAnswerView,
)
    ensures
        queue_stream::<T, I>(seq![node], dns) == T::stream(node, dns),
{
    let one = seq![node];
    assert(one[0] == node);
    assert(one.drop_first() =~= Seq::<T::Model>::empty());
    assert(queue_stream::<T, I>(one.drop_first(), dns) =~= Seq::<I>::empty());
    assert(queue_stream::<T, I>(one, dns) =~= T::stream(node, dns));
}

/// Whether the transport of every target satisfies `p`.
pub open spec fn all_by(targets: Seq<Target>, p: spec_fn(Transport) -> bool) -> bool {
    forall|i: int| 0 <= i < targets.len() ==> p(#[trigger] targets[i].transport)
}

/// What holds of the targets of every node of a queue holds of the targets of the queue.
pub proof fn lemma_queue_all_by<T: ResolvableExt<Target>>(
    queue: Seq<T::Model>,
    dns: spec_fn(DnsQueryView) -> DnsAnswerView,
    p: spec_fn(Transport) -> bool,
)
    requires
        forall|i: int| 0 <= i < queue.len() ==> all_by(T::stream(#[trigger] queue[i], dns), p),
    ensures
        all_by(queue_stream::<T, Target>(queue, dns), p),
    decreases queue.len(),
{
    if queue.len() > 0 {
        assert forall|i: int| 0 <= i < queue.drop_first().len() implies all_by(
            T::stream(#[trigger] queue.drop_first()[i], dns),
            p,
        ) by {
            assert(queue.drop_first()[i] == queue[i + 1]);
        }
        lemma_queue_all_by::<T>(queue.drop_first(), dns, p);
        assert(all_by(T::stream(queue[0], dns), p));
    }
}

/// The targets of the entries of an SRV answer: those at the first entry's
/// target, then those at the second's, and so on, each at the entry's port.
pub open spec fn entries_targets(
    dns: spec_fn(DnsQueryView) -> DnsAnswerView,
    entries: Seq<SrvEntryView>,
    transport: Transport,
) -> Seq<Target>
    decreases entries.len(),
{
    if entries.len() == 0 {
        Seq::empty()
    } else {
        addr_targets(dns, entries[0].target, entries[0].port, transport) + entries_targets(
            dns,
            entries.drop_first(),
            transport,
        )
    }
}

/// The targets under an SRV name are the targets of its entries, in the order of the answer.
pub proof fn law_srv_targets_in_order<C: DnsClient>(
    dns: spec_fn(DnsQueryView) -> DnsAnswerView,
    domain: SrvDomainView,
)
    ensures
        srv_targets::<C>(dns, domain) == entries_targets(
            dns,
            entries_of_answer(dns(DnsQueryView::Srv(domain))),
            domain.transport(),
        ),
{
    lemma_addr_nodes_stream::<C>(
        dns,
        entries_of_answer(dns(DnsQueryView::Srv(domain))),
        domain.transport(),
    );
}

pub proof fn lemma_addr_nodes_stream<C: DnsClient>(
    dns: spec_fn(DnsQueryView) -> DnsAnswerView,
    entries: Seq<SrvEntryView>,
    transport: Transport,
)
    ensures
        queue_stream::<ResolvableAddrRecord<C>, Target>(addr_nodes(entries, transport), dns)
            == entries_targets(dns, entries, transport),
    decreases entries.len(),
{
    if entries.len() > 0 {
        lemma_addr_nodes_stream::<C>(dns, entries.drop_first(), transport);
        assert(addr_nodes(entries, transport).drop_first() =~= addr_nodes(
            entries.drop_first(),
            transport,
        ));
    }
}

/// The targets of the SRV lookups for a list of transports, one transport after the other.
pub open spec fn transports_targets<C: DnsClient>(
    dns: spec_fn(DnsQueryView) -> DnsAnswerView,
    domain: Seq<char>,
    transports: Seq<Transport>,
    secure: bool,
) -> Seq<Target>
    decreases transports.len(),
{
    if transports.len() == 0 {
        Seq::empty()
    } else {
        srv_targets::<C>(dns, srv_name_for(domain, transports[0], secure)) + transports_targets::<
            C,
        >(dns, domain, transports.drop_first(), secure)
    }
}

pub proof fn lemma_srv_branches_stream<C: DnsClient>(
    dns: spec_fn(DnsQueryView) -> DnsAnswerView,
    domain: Seq<char>,
    transports: Seq<Transport>,
    secure: bool,
)
    ensures
        queue_stream::<ResolvableEnum<C>, Target>(srv_branches(domain, transports, secure), dns)
            == transports_targets::<C>(dns, domain, transports, secure),
    decreases transports.len(),
{
    if transports.len() > 0 {
        lemma_srv_branches_stream::<C>(dns, domain, transports.drop_first(), secure);
        assert(srv_branches(domain, transports, secure).drop_first() =~= srv_branches(
            domain,
            transports.drop_first(),
            secure,
        ));
    }
}

/// An address as host is answered without DNS: the first step hands out
/// the one target, at the port given or the default port of the transport,
/// and leaves the lookup exhausted; no step asks a query.
pub proof fn law_address_needs_no_dns<C: DnsClient>(
    secure: bool,
    ip_addr: IpAddr,
    port: Option<Port>,
    transport: Option<Transport>,
    supported: Seq<Transport>,
    dns: spec_fn(DnsQueryView) -> DnsAnswerView,
)
    ensures
        ({
            let m = lookup_model(secure, Host::IpAddr(ip_addr), port, transport, supported);
            let chosen = default_transport_of(secure, transport);
            let target = Target { ip_addr, port: port_of(port, chosen), transport: chosen };
            &&& Lookup::<C>::advanced(m).1 == StepView::Item(target)
            &&& Lookup::<C>::state_of(Lookup::<C>::advanced(m).0) is Empty
            &&& Lookup::<C>::advanced(Lookup::<C>::advanced(m).0).1 is Done
            &&& Lookup::<C>::stream(m, dns) == seq![target]
        }),
{
    let m = lookup_model(secure, Host::IpAddr(ip_addr), port, transport, supported);
    let chosen = default_transport_of(secure, transport);
    let target = Target { ip_addr, port: port_of(port, chosen), transport: chosen };
    assert(Lookup::<C>::stream(m, dns) =~= seq![target]);
}

/// Whether a lookup is one by domain and port whose addresses were looked up.
pub open spec fn addresses_known(m: LookupModel) -> bool {
    m matches LookupModel::DomainWithPort(inner) && inner.ip_addrs is Some
}

/// A domain with a port asks for the addresses of the domain and for
/// nothing else. Its first step is that query. Once it is answered, the
/// lookup yields one target per address of the answer, at the port given,
/// and no step asks a query again.
pub proof fn law_domain_with_port<C: DnsClient>(
    secure: bool,
    domain: Domain,
    port: Port,
    transport: Option<Transport>,
    supported: Seq<Transport>,
    answer: DnsAnswerView,
    dns: spec_fn(DnsQueryView) -> DnsAnswerView,
)
    ensures
        ({
            let m = lookup_model(secure, Host::Domain(domain), Some(port), transport, supported);
            let chosen = default_transport_of(secure, transport);
            &&& Lookup::<C>::advanced(m) == (m, StepView::<Target>::Query(DnsQueryView::Addr(domain@)))
            &&& addresses_known(Lookup::<C>::supplied(m, answer))
            &&& Lookup::<C>::stream(Lookup::<C>::supplied(m, answer), dns) == targets_of(
                ips_of_answer(answer),
                port,
                chosen,
            )
            &&& Lookup::<C>::stream(m, dns) == addr_targets(dns, domain@, port, chosen)
        }),
{
    let m = lookup_model(secure, Host::Domain(domain), Some(port), transport, supported);
    let chosen = default_transport_of(secure, transport);
    crate::resolvables::resolvable_addr_record::lemma_ip_nodes_stream(
        ips_of_answer(answer),
        port,
        chosen,
        dns,
    );
}

/// Once the addresses are known, no step asks a query, and they stay known.
pub proof fn law_known_addresses_ask_nothing<C: DnsClient>(m: LookupModel, answer: DnsAnswerView)
    requires
        addresses_known(m),
    ensures
        !(Lookup::<C>::advanced(m).1 is Query),
        addresses_known(Lookup::<C>::advanced(m).0),
        addresses_known(Lookup::<C>::supplied(m, answer)),
{
    lemma_address_queue_needs_no_query(m->DomainWithPort_0.ip_addrs->0);
}

/// A domain with a transport yields the targets of its SRV entries, entry
/// by entry in the order of the answer, each at the entry's port, and then
/// the targets at the domain itself at the default port; all of them with
/// the one transport that the SRV name stands for.
pub proof fn law_domain_with_transport_order<C: DnsClient>(
    secure: bool,
    domain: Domain,
    transport: Transport,
    supported: Seq<Transport>,
    dns: spec_fn(DnsQueryView) -> DnsAnswerView,
)
    ensures
        ({
            let m = lookup_model(secure, Host::Domain(domain), None, Some(transport), supported);
            let name = srv_name_for(domain@, transport, secure);
            let entries = entries_of_answer(dns(DnsQueryView::Srv(name)));
            let t = name.transport();
            &&& Lookup::<C>::stream(m, dns) == entries_targets(dns, entries, t) + addr_targets(
                dns,
                domain@,
                t.spec_default_port(),
                t,
            )
            &&& entries.len() == 2 ==> Lookup::<C>::stream(m, dns) == addr_targets(
                dns,
                entries[0].target,
                entries[0].port,
                t,
            ) + addr_targets(dns, entries[1].target, entries[1].port, t) + addr_targets(
                dns,
                domain@,
                t.spec_default_port(),
                t,
            )
        }),
{
    let name = srv_name_for(domain@, transport, secure);
    let entries = entries_of_answer(dns(DnsQueryView::Srv(name)));
    let t = name.transport();
    let branches = transport_branches(domain@, transport, secure);
    let first = seq![branches[0]];
    let second = seq![branches[1]];
    assert(branches =~= first + second);
    lemma_queue_stream_joined::<ResolvableEnum<C>, Target>(first, second, dns);
    lemma_queue_stream_of_one::<ResolvableEnum<C>, Target>(branches[0], dns);
    lemma_queue_stream_of_one::<ResolvableEnum<C>, Target>(branches[1], dns);
    law_srv_targets_in_order::<C>(dns, name);
    if entries.len() == 2 {
        let rest = entries.drop_first();
        assert(rest[0] == entries[1]);
        assert(rest.drop_first().len() == 0);
        assert(entries_targets(dns, rest.drop_first(), t) =~= Seq::<Target>::empty());
        assert(entries_targets(dns, rest, t) =~= addr_targets(
            dns,
            entries[1].target,
            entries[1].port,
            t,
        ));
    }
}

/// A domain alone yields the targets that its NAPTR records lead to, then
/// those of the SRV lookups for every available transport in their order,
/// then those at the domain itself with the default transport and port.
pub proof fn law_just_domain_order<C: DnsClient>(
    secure: bool,
    domain: Domain,
    supported: Seq<Transport>,
    dns: spec_fn(DnsQueryView) -> DnsAnswerView,
)
    ensures
        ({
            let m = lookup_model(secure, Host::Domain(domain), None, None, supported);
            let available = available_transports_of(secure, supported);
            let chosen = default_transport_of(secure, None);
            Lookup::<C>::stream(m, dns) == naptr_targets::<C>(dns, domain@, available)
                + transports_targets::<C>(dns, domain@, available, secure) + addr_targets(
                dns,
                domain@,
                chosen.spec_default_port(),
                chosen,
            )
        }),
{
    let available = available_transports_of(secure, supported);
    let branches = domain_branches(domain@, available, secure);
    let first = seq![branches[0]];
    let middle = srv_branches(domain@, available, secure);
    let last = seq![branches[branches.len() - 1]];
    assert(branches =~= first + middle + last);
    lemma_queue_stream_joined::<ResolvableEnum<C>, Target>(first + middle, last, dns);
    lemma_queue_stream_joined::<ResolvableEnum<C>, Target>(first, middle, dns);
    lemma_queue_stream_of_one::<ResolvableEnum<C>, Target>(branches[0], dns);
    lemma_queue_stream_of_one::<ResolvableEnum<C>, Target>(branches[branches.len() - 1], dns);
    lemma_srv_branches_stream::<C>(dns, domain@, available, secure);
}

/// The SRV names of two lists of NAPTR entries, one after the other, are those of the joined list.
pub proof fn lemma_srv_names_joined(
    a: Seq<NaptrEntryView>,
    b: Seq<NaptrEntryView>,
    available: Seq<Transport>,
)
    ensures
        srv_names(a + b, available) == srv_names(a, available) + srv_names(b, available),
    decreases b.len(),
{
    if b.len() == 0 {
        assert(a + b =~= a);
        assert(srv_names(a, available) + srv_names(b, available) =~= srv_names(a, available));
    } else {
        lemma_srv_names_joined(a, b.drop_last(), available);
        assert((a + b).drop_last() =~= a + b.drop_last());
        assert((a + b).last() == b.last());
        assert(srv_names(a + b, available) =~= srv_names(a, available) + srv_names(b, available));
    }
}

/// NAPTR filtering. An entry whose flag is not `S`, whose service stands
/// for no transport, or whose transport is not available, is left out: the
/// SRV names are the same with and without it. Every SRV name that is
/// there comes from an entry that counts, and stands for that entry's
/// transport, which is available.
pub proof fn law_naptr_filtering(
    before: Seq<NaptrEntryView>,
    entry: NaptrEntryView,
    after: Seq<NaptrEntryView>,
    available: Seq<Transport>,
)
    ensures
        !entry_counts(entry, available) ==> srv_names(before + seq![entry] + after, available)
            == srv_names(before + after, available),
        entry_counts(entry, available) ==> srv_names(before + seq![entry] + after, available)
            == srv_names(before, available) + seq![srv_domain_of_entry(entry)->0] + srv_names(
            after,
            available,
        ),
        entry_counts(entry, available) ==> srv_domain_of_entry(entry) is Some
            && srv_domain_of_entry(entry)->0.transport() == entry.services.spec_transport()->0
            && available.contains(srv_domain_of_entry(entry)->0.transport()),
        forall|i: int|
            0 <= i < srv_names(before, available).len() ==> available.contains(
                (#[trigger] srv_names(before, available)[i]).transport(),
            ),
{
    lemma_srv_names_joined(before + seq![entry], after, available);
    lemma_srv_names_joined(before, seq![entry], available);
    lemma_srv_names_joined(before, after, available);
    let one = seq![entry];
    assert(one.drop_last() =~= Seq::<NaptrEntryView>::empty());
    assert(srv_names(one.drop_last(), available) =~= Seq::<SrvDomainView>::empty());
    if entry_counts(entry, available) {
        assert(srv_names(one, available) =~= seq![srv_domain_of_entry(entry)->0]);
    } else {
        assert(srv_names(one, available) =~= Seq::<SrvDomainView>::empty());
        assert(srv_names(before, available) + srv_names(one, available) =~= srv_names(
            before,
            available,
        ));
    }
    lemma_srv_names_transports(before, available);
}

/// The targets at a domain have the transport that they were looked up for.
pub proof fn lemma_addr_targets_all_by(
    dns: spec_fn(DnsQueryView) -> DnsAnswerView,
    domain: Seq<char>,
    port: Port,
    transport: Transport,
    p: spec_fn(Transport) -> bool,
)
    requires
        p(transport),
    ensures
        all_by(addr_targets(dns, domain, port, transport), p),
{
}

/// The targets under an SRV name have the transport that the name stands for.
pub proof fn lemma_srv_targets_all_by<C: DnsClient>(
    dns: spec_fn(DnsQueryView) -> DnsAnswerView,
    domain: SrvDomainView,
    p: spec_fn(Transport) -> bool,
)
    requires
        p(domain.transport()),
    ensures
        all_by(srv_targets::<C>(dns, domain), p),
{
    let entries = entries_of_answer(dns(DnsQueryView::Srv(domain)));
    let nodes = addr_nodes(entries, domain.transport());
    assert forall|i: int| 0 <= i < nodes.len() implies all_by(
        ResolvableAddrRecord::<C>::stream(#[trigger] nodes[i], dns),
        p,
    ) by {
        lemma_addr_targets_all_by(dns, entries[i].target, entries[i].port, domain.transport(), p);
    }
    lemma_queue_all_by::<ResolvableAddrRecord<C>>(nodes, dns, p);
}

/// The targets that NAPTR records lead to have available transports.
pub proof fn lemma_naptr_targets_all_by<C: DnsClient>(
    dns: spec_fn(DnsQueryView) -> DnsAnswerView,
    domain: Seq<char>,
    available: Seq<Transport>,
    p: spec_fn(Transport) -> bool,
)
    requires
        forall|t: Transport| available.contains(t) ==> p(t),
    ensures
        all_by(naptr_targets::<C>(dns, domain, available), p),
{
    let entries = naptr_entries_of_answer(dns(DnsQueryView::Naptr(domain)));
    let names = srv_names(entries, available);
    let nodes = srv_nodes(names);
    lemma_srv_names_transports(entries, available);
    assert forall|i: int| 0 <= i < nodes.len() implies all_by(
        ResolvableSrvRecord::<C>::stream(#[trigger] nodes[i], dns),
        p,
    ) by {
        assert(available.contains(names[i].transport()));
        lemma_srv_targets_all_by::<C>(dns, names[i], p);
    }
    lemma_queue_all_by::<ResolvableSrvRecord<C>>(nodes, dns, p);
}

/// What holds of the transports of two sequences holds of their join.
pub proof fn lemma_all_by_joined(a: Seq<Target>, b: Seq<Target>, p: spec_fn(Transport) -> bool)
    requires
        all_by(a, p),
        all_by(b, p),
    ensures
        all_by(a + b, p),
{
    assert forall|i: int| 0 <= i < (a + b).len() implies p(#[trigger] (a + b)[i].transport) by {
        if i < a.len() {
            assert((a + b)[i] == a[i]);
        } else {
            assert((a + b)[i] == b[i - a.len()]);
        }
    }
}

/// Secure filter. A secure context that names no insecure transport yields
/// only targets with a secure transport, whatever DNS answers.
pub proof fn law_secure_filter<C: DnsClient>(
    host: Host,
    port: Option<Port>,
    transport: Option<Transport>,
    supported: Seq<Transport>,
    dns: spec_fn(DnsQueryView) -> DnsAnswerView,
)
    requires
        !mismatched(true, transport),
    ensures
        forall|i: int|
            0 <= i < Lookup::<C>::stream(lookup_model(true, host, port, transport, supported), dns).len()
                ==> (#[trigger] Lookup::<C>::stream(
                lookup_model(true, host, port, transport, supported),
                dns,
            )[i]).transport.spec_is_secure(),
{
    let p = |t: Transport| t.spec_is_secure();
    let m = lookup_model(true, host, port, transport, supported);
    let chosen = default_transport_of(true, transport);
    assert(p(chosen));
    assert(all_by(Lookup::<C>::stream(m, dns), p)) by {
        match host {
            Host::IpAddr(ip_addr) => {
                law_address_needs_no_dns::<C>(true, ip_addr, port, transport, supported, dns);
            },
            Host::Domain(domain) => {
                match (port, transport) {
                    (Some(port), _) => {
                        lemma_addr_targets_all_by(dns, domain@, port, chosen, p);
                    },
                    (None, Some(transport)) => {
                        law_domain_with_transport_order::<C>(true, domain, transport, supported, dns);
                        let name = srv_name_for(domain@, transport, true);
                        assert(name.transport() == transport);
                        law_srv_targets_in_order::<C>(dns, name);
                        lemma_srv_targets_all_by::<C>(dns, name, p);
                        lemma_addr_targets_all_by(
                            dns,
                            domain@,
                            transport.spec_default_port(),
                            transport,
                            p,
                        );
                        lemma_all_by_joined(
                            srv_targets::<C>(dns, name),
                            addr_targets(dns, domain@, transport.spec_default_port(), transport),
                            p,
                        );
                    },
                    (None, None) => {
                        let available = available_transports_of(true, supported);
                        law_just_domain_order::<C>(true, domain, supported, dns);
                        lemma_only_those(supported, Transport::spec_secure_transports());
                        assert forall|t: Transport| available.contains(t) implies p(t) by {
                            let s = Transport::spec_secure_transports();
                            let k = choose|k: int| 0 <= k < s.len() && s[k] == t;
                        }
                        lemma_naptr_targets_all_by::<C>(dns, domain@, available, p);
                        lemma_transports_targets_all_by::<C>(dns, domain@, available, p);
                        lemma_addr_targets_all_by(
                            dns,
                            domain@,
                            chosen.spec_default_port(),
                            chosen,
                            p,
                        );
                        lemma_all_by_joined(
                            naptr_targets::<C>(dns, domain@, available),
                            transports_targets::<C>(dns, domain@, available, true),
                            p,
                        );
                        lemma_all_by_joined(
                            naptr_targets::<C>(dns, domain@, available) + transports_targets::<C>(
                                dns,
                                domain@,
                                available,
                                true,
                            ),
                            addr_targets(dns, domain@, chosen.spec_default_port(), chosen),
                            p,
                        );
                    },
                }
            },
        }
    }
}

/// The targets of the SRV lookups for secure transports have secure transports.
pub proof fn lemma_transports_targets_all_by<C: DnsClient>(
    dns: spec_fn(DnsQueryView) -> DnsAnswerView,
    domain: Seq<char>,
    transports: Seq<Transport>,
    p: spec_fn(Transport) -> bool,
)
    requires
        forall|t: Transport| transports.contains(t) ==> t.spec_is_secure(),
        forall|t: Transport| t.spec_is_secure() ==> p(t),
    ensures
        all_by(transports_targets::<C>(dns, domain, transports, true), p),
    decreases transports.len(),
{
    if transports.len() > 0 {
        let t0 = transports[0];
        assert(transports.contains(t0));
        assert(t0.spec_is_secure());
        assert forall|t: Transport| transports.drop_first().contains(t) implies t.spec_is_secure() by {
            let k = choose|k: int|
                0 <= k < transports.drop_first().len() && transports.drop_first()[k] == t;
            assert(transports[k + 1] == t);
        }
        lemma_transports_targets_all_by::<C>(dns, domain, transports.drop_first(), p);
        let name = srv_name_for(domain, transports[0], true);
        assert(name.transport() == transports[0]);
        lemma_srv_targets_all_by::<C>(dns, name, p);
        lemma_all_by_joined(
            srv_targets::<C>(dns, name),
            transports_targets::<C>(dns, domain, transports.drop_first(), true),
            p,
        );
    }
}

/// Round trip. An SRV name whose protocol is a wire protocol reads back,
/// from the text that it is written as, as itself.
pub proof fn law_srv_name_round_trip(name: SrvDomainView)
    requires
        name.legal(),
    ensures
        parse_srv_name(name.format()) == Some(name),
{
    reveal_strlit("_sips._");
    reveal_strlit("_sip._");
    reveal_strlit(".");
    reveal_strlit("udp");
    reveal_strlit("tcp");
    reveal_strlit("tls");
    reveal_strlit("sctp");
    reveal_strlit("tls-sctp");
    reveal_strlit("ws");
    reveal_strlit("wss");
    reveal_strlit("UDP");
    reveal_strlit("TCP");
    reveal_strlit("TLS");
    reveal_strlit("SCTP");
    reveal_strlit("TLS-SCTP");
    reveal_strlit("WS");
    reveal_strlit("WSS");
    reveal_strlit("sip");
    reveal_strlit("sips");
    let scheme: Seq<char> = if name.secure {
        seq!['s', 'i', 'p', 's']
    } else {
        seq!['s', 'i', 'p']
    };
    let label = name.protocol.spec_label();
    let rest = seq!['_'] + label + seq!['.'] + name.domain;
    let text = name.format();
    assert(text =~= (seq!['_'] + scheme) + seq!['.'] + rest);
    lemma_first_dot_of_joined(seq!['_'] + scheme, rest, 1);
    let d = first_dot(text, 1);
    assert(text.subrange(1, d) =~= scheme);
    assert(text.subrange(d + 1, text.len() as int) =~= rest);
    assert(split_label(text) == Some((scheme, rest)));
    assert(rest =~= (seq!['_'] + label) + seq!['.'] + name.domain);
    lemma_first_dot_of_joined(seq!['_'] + label, name.domain, 1);
    let e = first_dot(rest, 1);
    assert(rest.subrange(1, e) =~= label);
    assert(rest.subrange(e + 1, rest.len() as int) =~= name.domain);
    assert(split_label(rest) == Some((label, name.domain)));
    assert(secure_of_scheme_token(scheme) == Some(name.secure));
    assert(transport_of_token(label) == Some(name.protocol));
}

} // verus!
