//! The lookup: which of the four procedures of RFC 3263 applies, and the
//! tree of nodes that carries it out.

use crate::context::{available_transports_of, default_transport_of, Context};
use crate::dns_client::{DnsAnswer, DnsAnswerView, DnsClient, DnsQueryView};
use crate::records::{SrvDomain, SrvDomainView};
use crate::resolvables::outcomes::lemma_outcome_lifted;
use crate::resolvables::resolvable_vec::models_of;
use crate::resolvables::{
    outcome, AddrModel, EnumModel, IpAddrModel, NaptrModel, ResolvableAddrRecord, ResolvableEnum,
    ResolvableExt, ResolvableIpAddr, ResolvableNaptrRecord, ResolvableSpec, ResolvableSrvRecord,
    ResolvableState, ResolvableVec, SrvModel, Step, StepView,
};
use crate::sip::{Domain, Host, IpAddr, Port, Transport};
use crate::target::Target;
use vstd::prelude::*;

verus! {

/// The queue of branches of a lookup by domain.
pub type Branches<C> = ResolvableVec<ResolvableEnum<C>, Target>;

/// A lookup, by the case that its context falls under.
#[derive(Debug, Clone)]
pub enum Lookup<C: DnsClient> {
    /// The host is an address: it is the only target.
    IpAddr(ResolvableIpAddr),
    /// The host is a domain and a port is given: the domain's addresses at that port.
    DomainWithPort(ResolvableAddrRecord<C>),
    /// The host is a domain and a transport is given, no port: the SRV
    /// records for that transport, then the domain's own addresses.
    DomainWithTransport(Branches<C>),
    /// The host is a domain and nothing else is given: NAPTR records, then
    /// the SRV records for every available transport, then the domain's own addresses.
    JustDomain(Branches<C>),
}

/// What a [`Lookup`] is: the case, and the model of its tree.
pub enum LookupModel {
    IpAddr(IpAddrModel),
    DomainWithPort(AddrModel),
    DomainWithTransport(Option<Seq<EnumModel>>),
    JustDomain(Option<Seq<EnumModel>>),
}

/// The SRV name for a domain and a transport: the transport's wire protocol, under `_sip` or `_sips`.
pub open spec fn srv_name_for(domain: Seq<char>, transport: Transport, secure: bool) -> SrvDomainView {
    SrvDomainView { domain, protocol: transport.spec_protocol(), secure }
}

/// The branches of a lookup by transport: the SRV lookup for that
/// transport, then the address lookup of the domain itself, at the default
/// port of the transport that the SRV name stands for.
pub open spec fn transport_branches(domain: Seq<char>, transport: Transport, secure: bool) -> Seq<
    EnumModel,
> {
    let name = srv_name_for(domain, transport, secure);
    seq![
        EnumModel::SrvRecord(SrvModel::fresh(name)),
        EnumModel::AddrRecord(
            AddrModel::fresh(domain, name.transport().spec_default_port(), name.transport()),
        ),
    ]
}

/// One fresh SRV lookup per transport.
pub open spec fn srv_branches(domain: Seq<char>, transports: Seq<Transport>, secure: bool) -> Seq<
    EnumModel,
> {
    transports.map_values(
        |t: Transport| EnumModel::SrvRecord(SrvModel::fresh(srv_name_for(domain, t, secure))),
    )
}

/// The branches of a lookup by domain alone: the NAPTR lookup, then one
/// SRV lookup per available transport in their order, then the address
/// lookup of the domain itself with the default transport and its port.
pub open spec fn domain_branches(domain: Seq<char>, available: Seq<Transport>, secure: bool) -> Seq<
    EnumModel,
> {
    let transport = default_transport_of(secure, None);
    seq![EnumModel::NaptrRecord(NaptrModel::fresh(domain, available))] + srv_branches(
        domain,
        available,
        secure,
    ) + seq![
        EnumModel::AddrRecord(AddrModel::fresh(domain, transport.spec_default_port(), transport)),
    ]
}

/// The port of a lookup: the one that was asked for, else the default port of its transport.
pub open spec fn port_of(port: Option<Port>, transport: Transport) -> Port {
    match port {
        Some(port) => port,
        None => transport.spec_default_port(),
    }
}

/// The lookup that a context asks for.
pub open spec fn lookup_model(
    secure: bool,
    host: Host,
    port: Option<Port>,
    transport: Option<Transport>,
    supported: Seq<Transport>,
) -> LookupModel {
    let default_transport = default_transport_of(secure, transport);
    match host {
        Host::IpAddr(ip_addr) => LookupModel::IpAddr(
            IpAddrModel::fresh(ip_addr, port_of(port, default_transport), default_transport),
        ),
        Host::Domain(domain) => match (port, transport) {
            (Some(port), _) => LookupModel::DomainWithPort(
                AddrModel::fresh(domain@, port, default_transport),
            ),
            (None, Some(transport)) => LookupModel::DomainWithTransport(
                Some(transport_branches(domain@, transport, secure)),
            ),
            (None, None) => LookupModel::JustDomain(
                Some(domain_branches(domain@, available_transports_of(secure, supported), secure)),
            ),
        },
    }
}

impl<C: DnsClient> Context<C> {
    /// The lookup that the context asks for.
    pub open spec fn lookup(&self) -> LookupModel {
        lookup_model(self.secure, self.host, self.port, self.transport, self.supported_transports@)
    }
}

fn ip_addr_lookup<C: DnsClient>(ip_addr: IpAddr, ctx: Context<C>) -> (r: Lookup<C>)
    requires
        ctx.host == Host::IpAddr(ip_addr),
    ensures
        r.model() == ctx.lookup(),
{
    let transport = ctx.default_transport();
    let port = match ctx.port {
        Some(port) => port,
        None => transport.default_port(),
    };
    Lookup::IpAddr(ResolvableIpAddr::new(ip_addr, port, transport))
}

fn domain_with_port_lookup<C: DnsClient>(domain: Domain, port: Port, ctx: Context<C>) -> (r: Lookup<
    C,
>)
    requires
        ctx.host == Host::Domain(domain),
        ctx.port == Some(port),
    ensures
        r.model() == ctx.lookup(),
{
    let transport = ctx.default_transport();
    Lookup::DomainWithPort(ResolvableAddrRecord::new(ctx.dns_client, domain, port, transport))
}

fn domain_with_transport_lookup<C: DnsClient>(
    domain: Domain,
    transport: Transport,
    ctx: Context<C>,
) -> (r: Lookup<C>)
    requires
        ctx.host == Host::Domain(domain),
        ctx.port is None,
        ctx.transport == Some(transport),
    ensures
        r.model() == ctx.lookup(),
{
    let mut lookups: Vec<ResolvableEnum<C>> = Vec::new();
    let srv_domain = SrvDomain {
        secure: ctx.secure,
        protocol: transport.protocol(),
        domain: domain.clone(),
    };
    let effective = srv_domain.transport();
    lookups.push(
        ResolvableEnum::SrvRecord(ResolvableSrvRecord::new(ctx.dns_client.clone(), srv_domain)),
    );
    lookups.push(
        ResolvableEnum::AddrRecord(
            ResolvableAddrRecord::new(ctx.dns_client, domain, effective.default_port(), effective),
        ),
    );
    assert(models_of::<ResolvableEnum<C>, Target>(lookups@) =~= transport_branches(
        domain@,
        transport,
        ctx.secure,
    ));
    Lookup::DomainWithTransport(ResolvableVec::non_empty(lookups))
}

fn just_domain_lookup<C: DnsClient>(domain: Domain, ctx: Context<C>) -> (r: Lookup<C>)
    requires
        ctx.host == Host::Domain(domain),
        ctx.port is None,
        ctx.transport is None,
    ensures
        r.model() == ctx.lookup(),
{
    let secure = ctx.secure;
    let available = ctx.available_transports();
    let mut lookups: Vec<ResolvableEnum<C>> = Vec::new();
    lookups.push(
        ResolvableEnum::NaptrRecord(
            ResolvableNaptrRecord::new(
                ctx.dns_client.clone(),
                domain.clone(),
                ctx.available_transports(),
            ),
        ),
    );
    let ghost first = lookups@[0].model();
    let mut i: usize = 0;
    while i < available.len()
        invariant
            i <= available.len(),
            lookups@.len() == i + 1,
            lookups@[0].model() == first,
            forall|j: int|
                0 <= j < i ==> (#[trigger] lookups@[j + 1]).model() == EnumModel::SrvRecord(
                    SrvModel::fresh(srv_name_for(domain@, available@[j], secure)),
                ),
        decreases available.len() - i,
    {
        let srv_domain = SrvDomain {
            secure,
            protocol: available[i].protocol(),
            domain: domain.clone(),
        };
        lookups.push(
            ResolvableEnum::SrvRecord(ResolvableSrvRecord::new(ctx.dns_client.clone(), srv_domain)),
        );
        i += 1;
    }
    let transport = if secure {
        Transport::Tls
    } else {
        Transport::Udp
    };
    lookups.push(
        ResolvableEnum::AddrRecord(
            ResolvableAddrRecord::new(ctx.dns_client, domain, transport.default_port(), transport),
        ),
    );
    assert(models_of::<ResolvableEnum<C>, Target>(lookups@) =~= domain_branches(
        domain@,
        available@,
        secure,
    )) by {
        let got = models_of::<ResolvableEnum<C>, Target>(lookups@);
        let want = domain_branches(domain@, available@, secure);
        assert(got.len() == want.len());
        assert forall|k: int| 0 <= k < got.len() implies got[k] == want[k] by {
            if 0 < k && k <= available@.len() {
                assert(lookups@[(k - 1) + 1].model() == want[k]);
            }
        }
    }
    Lookup::JustDomain(ResolvableVec::non_empty(lookups))
}

impl<C: DnsClient> Lookup<C> {
    /// The lookup for a context. An address as host is the only target,
    /// at the port given or the default port of the transport. A domain
    /// with a port is looked up for its addresses. A domain with a
    /// transport is looked up for SRV records, then for its addresses. A
    /// domain alone is looked up for NAPTR records, then for SRV records
    /// with every available transport, then for its addresses.
    pub fn from(ctx: Context<C>) -> (r: Self)
        ensures
            r.model() == ctx.lookup(),
    {
        match &ctx.host {
            Host::IpAddr(ip_addr) => {
                let ip_addr = *ip_addr;
                ip_addr_lookup(ip_addr, ctx)
            },
            Host::Domain(domain) => {
                let domain = domain.clone();
                match (ctx.port, ctx.transport) {
                    (Some(port), _) => domain_with_port_lookup(domain, port, ctx),
                    (None, Some(transport)) => domain_with_transport_lookup(domain, transport, ctx),
                    (None, None) => just_domain_lookup(domain, ctx),
                }
            },
        }
    }
}

impl<C: DnsClient> ResolvableSpec<Target> for Lookup<C> {
    type Model = LookupModel;

    open spec fn model(&self) -> LookupModel {
        match *self {
            Lookup::IpAddr(inner) => LookupModel::IpAddr(inner.model()),
            Lookup::DomainWithPort(inner) => LookupModel::DomainWithPort(inner.model()),
            Lookup::DomainWithTransport(inner) => LookupModel::DomainWithTransport(inner.model()),
            Lookup::JustDomain(inner) => LookupModel::JustDomain(inner.model()),
        }
    }

    open spec fn state_of(m: LookupModel) -> ResolvableState {
        match m {
            LookupModel::IpAddr(inner) => ResolvableIpAddr::state_of(inner),
            LookupModel::DomainWithPort(inner) => ResolvableAddrRecord::<C>::state_of(inner),
            LookupModel::DomainWithTransport(inner) => Branches::<C>::state_of(inner),
            LookupModel::JustDomain(inner) => Branches::<C>::state_of(
                inner,
            ),
        }
    }

    open spec fn advanced(m: LookupModel) -> (LookupModel, StepView<Target>) {
        match m {
            LookupModel::IpAddr(inner) => (
                LookupModel::IpAddr(ResolvableIpAddr::advanced(inner).0),
                ResolvableIpAddr::advanced(inner).1,
            ),
            LookupModel::DomainWithPort(inner) => (
                LookupModel::DomainWithPort(ResolvableAddrRecord::<C>::advanced(inner).0),
                ResolvableAddrRecord::<C>::advanced(inner).1,
            ),
            LookupModel::DomainWithTransport(inner) => (
                LookupModel::DomainWithTransport(
                    Branches::<C>::advanced(inner).0,
                ),
                Branches::<C>::advanced(inner).1,
            ),
            LookupModel::JustDomain(inner) => (
                LookupModel::JustDomain(
                    Branches::<C>::advanced(inner).0,
                ),
                Branches::<C>::advanced(inner).1,
            ),
        }
    }

    open spec fn supplied(m: LookupModel, answer: DnsAnswerView) -> LookupModel {
        match m {
            LookupModel::IpAddr(inner) => LookupModel::IpAddr(
                ResolvableIpAddr::supplied(inner, answer),
            ),
            LookupModel::DomainWithPort(inner) => LookupModel::DomainWithPort(
                ResolvableAddrRecord::<C>::supplied(inner, answer),
            ),
            LookupModel::DomainWithTransport(inner) => LookupModel::DomainWithTransport(
                Branches::<C>::supplied(inner, answer),
            ),
            LookupModel::JustDomain(inner) => LookupModel::JustDomain(
                Branches::<C>::supplied(inner, answer),
            ),
        }
    }

    open spec fn stream(m: LookupModel, dns: spec_fn(DnsQueryView) -> DnsAnswerView) -> Seq<
        Target,
    > {
        match m {
            LookupModel::IpAddr(inner) => ResolvableIpAddr::stream(inner, dns),
            LookupModel::DomainWithPort(inner) => ResolvableAddrRecord::<C>::stream(inner, dns),
            LookupModel::DomainWithTransport(inner) => Branches::<C>::stream(inner, dns),
            LookupModel::JustDomain(inner) => Branches::<C>::stream(
                inner,
                dns,
            ),
        }
    }

    open spec fn bound_by(m: LookupModel, p: spec_fn(Target) -> bool) -> bool {
        match m {
            LookupModel::IpAddr(inner) => ResolvableIpAddr::bound_by(inner, p),
            LookupModel::DomainWithPort(inner) => ResolvableAddrRecord::<C>::bound_by(inner, p),
            LookupModel::DomainWithTransport(inner) => Branches::<C>::bound_by(inner, p),
            LookupModel::JustDomain(inner) => Branches::<C>::bound_by(inner, p),
        }
    }

    proof fn law_bound(m: LookupModel, p: spec_fn(Target) -> bool, answer: DnsAnswerView) {
        match m {
            LookupModel::IpAddr(inner) => ResolvableIpAddr::law_bound(inner, p, answer),
            LookupModel::DomainWithPort(inner) => ResolvableAddrRecord::<C>::law_bound(inner, p, answer),
            LookupModel::DomainWithTransport(inner) => Branches::<C>::law_bound(inner, p, answer),
            LookupModel::JustDomain(inner) => Branches::<C>::law_bound(inner, p, answer),
        }
    }

    proof fn law_lifecycle(m: LookupModel, answer: DnsAnswerView) {
        match m {
            LookupModel::IpAddr(inner) => ResolvableIpAddr::law_lifecycle(inner, answer),
            LookupModel::DomainWithPort(inner) => ResolvableAddrRecord::<C>::law_lifecycle(
                inner,
                answer,
            ),
            LookupModel::DomainWithTransport(inner) => Branches::<C>::law_lifecycle(inner, answer),
            LookupModel::JustDomain(inner) => Branches::<C>::law_lifecycle(inner, answer),
        }
    }

    proof fn law_stream(m: LookupModel, dns: spec_fn(DnsQueryView) -> DnsAnswerView) {
        match m {
            LookupModel::IpAddr(inner) => ResolvableIpAddr::law_stream(inner, dns),
            LookupModel::DomainWithPort(inner) => ResolvableAddrRecord::<C>::law_stream(inner, dns),
            LookupModel::DomainWithTransport(inner) => Branches::<C>::law_stream(inner, dns),
            LookupModel::JustDomain(inner) => Branches::<C>::law_stream(
                inner,
                dns,
            ),
        }
    }
}

impl<C: DnsClient> ResolvableExt<Target> for Lookup<C> {
    fn state(&self) -> (s: ResolvableState) {
        match self {
            Lookup::IpAddr(inner) => inner.state(),
            Lookup::DomainWithPort(inner) => inner.state(),
            Lookup::DomainWithTransport(inner) => inner.state(),
            Lookup::JustDomain(inner) => inner.state(),
        }
    }

    fn advance(&mut self) -> (step: Step<Target>) {
        match self {
            Lookup::IpAddr(inner) => inner.advance(),
            Lookup::DomainWithPort(inner) => inner.advance(),
            Lookup::DomainWithTransport(inner) => inner.advance(),
            Lookup::JustDomain(inner) => inner.advance(),
        }
    }

    fn supply(&mut self, answer: DnsAnswer) {
        match self {
            Lookup::IpAddr(inner) => inner.supply(answer),
            Lookup::DomainWithPort(inner) => inner.supply(answer),
            Lookup::DomainWithTransport(inner) => inner.supply(answer),
            Lookup::JustDomain(inner) => inner.supply(answer),
        }
    }

    fn resolve_next(&mut self) -> (r: Option<Target>) {
        match self {
            Lookup::IpAddr(inner) => {
                let ghost before = inner.model();
                let r = inner.resolve_next();
                proof {
                    let given = choose|given: Seq<DnsAnswerView>|
                        outcome::<ResolvableIpAddr, Target>(before, given) == Some((inner.model(), r));
                    lemma_outcome_lifted::<Self, ResolvableIpAddr, Target>(
                        |x| LookupModel::IpAddr(x),
                        |x| true,
                        before,
                        given,
                    );
                }
                r
            },
            Lookup::DomainWithPort(inner) => {
                let ghost before = inner.model();
                let r = inner.resolve_next();
                proof {
                    let given = choose|given: Seq<DnsAnswerView>|
                        outcome::<ResolvableAddrRecord<C>, Target>(before, given) == Some((inner.model(), r));
                    lemma_outcome_lifted::<Self, ResolvableAddrRecord<C>, Target>(
                        |x| LookupModel::DomainWithPort(x),
                        |x| true,
                        before,
                        given,
                    );
                }
                r
            },
            Lookup::DomainWithTransport(inner) => {
                let ghost before = inner.model();
                let r = inner.resolve_next();
                proof {
                    let given = choose|given: Seq<DnsAnswerView>|
                        outcome::<Branches<C>, Target>(before, given) == Some((inner.model(), r));
                    lemma_outcome_lifted::<Self, Branches<C>, Target>(
                        |x| LookupModel::DomainWithTransport(x),
                        |x| true,
                        before,
                        given,
                    );
                }
                r
            },
            Lookup::JustDomain(inner) => {
                let ghost before = inner.model();
                let r = inner.resolve_next();
                proof {
                    let given = choose|given: Seq<DnsAnswerView>|
                        outcome::<Branches<C>, Target>(before, given) == Some((inner.model(), r));
                    lemma_outcome_lifted::<Self, Branches<C>, Target>(
                        |x| LookupModel::JustDomain(x),
                        |x| true,
                        before,
                        given,
                    );
                }
                r
            },
        }
    }
}

} // verus!
