use rsip_dns::dns_client::perform;
use rsip_dns::records::{
    AddrRecord, NaptrEntry, NaptrFlags, NaptrRecord, NaptrServices, SrvEntry, SrvRecord,
};
use rsip_dns::resolvables::{ResolvableState, Step};
use rsip_dns::{
    Context, DnsAnswer, DnsClient, DnsQuery, Domain, Error, Host, IpAddr, Lookup, Port, ResolvableExt,
    Scheme, SrvDomain, SupportedTransports, Target, Transport, Uri,
};
use std::collections::HashMap;
use std::sync::{Arc, Mutex};
use rsip_dns::Transport::{Sctp, Tcp, Tls, TlsSctp, Udp, Ws, Wss};

type ARecords = HashMap<Domain, Vec<IpAddr>>;
type SrvMap = HashMap<SrvDomain, Vec<(u16, u16, Port, Domain)>>;
type NaptrMap = HashMap<Domain, Vec<(u16, u16, NaptrFlags, NaptrServices, SrvDomain)>>;

#[derive(Clone, Default)]
struct CustomDnsClient {
    naptr_records: Option<HashMap<Domain, NaptrRecord>>,
    srv_records: Option<HashMap<SrvDomain, SrvRecord>>,
    a_records: Option<ARecords>,
    asked: Arc<Mutex<Vec<String>>>,
}

impl CustomDnsClient {
    fn new(naptr: Option<NaptrMap>, srv: Option<SrvMap>, a: Option<ARecords>) -> Self {
        let naptr_records = naptr.map(|map| {
            map.into_iter()
                .map(|(domain, entries)| {
                    let record = NaptrRecord {
                        domain: domain.clone(),
                        entries: entries
                            .into_iter()
                            .map(|tuple| NaptrEntry {
                                order: tuple.0,
                                preference: tuple.1,
                                flags: tuple.2,
                                services: tuple.3,
                                replacement: Domain::from(tuple.4.to_string().as_str()),
                                regexp: vec![],
                            })
                            .collect(),
                    };
                    (domain, record)
                })
                .collect()
        });
        let srv_records = srv.map(|map| {
            map.into_iter()
                .map(|(srv_domain, entries)| {
                    let record = SrvRecord {
                        domain: srv_domain.clone(),
                        entries: entries
                            .into_iter()
                            .map(|tuple| SrvEntry {
                                priority: tuple.0,
                                weight: tuple.1,
                                port: tuple.2,
                                target: tuple.3,
                            })
                            .collect(),
                    };
                    (srv_domain, record)
                })
                .collect()
        });
        Self { naptr_records, srv_records, a_records: a, asked: Default::default() }
    }

    fn asked(&self) -> Vec<String> {
        self.asked.lock().unwrap().clone()
    }
}

impl DnsClient for CustomDnsClient {
    fn naptr_lookup(&self, domain: Domain) -> Option<NaptrRecord> {
        self.asked.lock().unwrap().push(format!("NAPTR {}", domain.as_str()));
        self.naptr_records.clone().unwrap().get(&domain).cloned()
    }

    fn srv_lookup(&self, srv_domain: SrvDomain) -> Option<SrvRecord> {
        self.asked.lock().unwrap().push(format!("SRV {}", srv_domain.to_string()));
        self.srv_records.clone().unwrap().get(&srv_domain).cloned()
    }

    fn ip_lookup(&self, domain: Domain) -> Result<AddrRecord, Error> {
        self.asked.lock().unwrap().push(format!("A {}", domain.as_str()));
        match self.a_records.clone().unwrap().get(&domain).cloned() {
            Some(ip_addrs) => Ok(AddrRecord { domain, ip_addrs }),
            None => Err(Error::Unexpected(format!("Could not find anything for {}", domain.as_str()))),
        }
    }
}

#[derive(Debug, Clone, Default)]
struct PanicDnsClient;

impl DnsClient for PanicDnsClient {
    fn naptr_lookup(&self, _domain: Domain) -> Option<NaptrRecord> {
        panic!("should never call naptr_lookup, yet it did!")
    }

    fn srv_lookup(&self, _domain: SrvDomain) -> Option<SrvRecord> {
        panic!("should never call srv_lookup, yet it did!")
    }

    fn ip_lookup(&self, _domain: Domain) -> Result<AddrRecord, Error> {
        panic!("should never call ip_lookup, yet it did!")
    }
}

fn d(text: &str) -> Domain {
    Domain::from(text)
}

fn ip(third: u8, last: u8) -> IpAddr {
    IpAddr::V4(198, 51, third, last)
}

fn make_uri(scheme: Option<Scheme>, host: Host, port: Option<u16>, transport: Option<Transport>) -> Uri {
    Uri { scheme, host, port: port.map(Port), transport }
}

fn assert_lookup<C: DnsClient>(
    lookup: &mut Lookup<C>,
    a_records: &ARecords,
    transport: Transport,
    port: u16,
    a_domain: &str,
    first: bool,
) {
    let Target { ip_addr, port: got_port, transport: got_transport } = lookup.resolve_next().unwrap();
    assert_eq!(got_transport, transport);
    assert_eq!(got_port, Port::from(port));
    let addrs = a_records.get(&d(a_domain)).cloned().unwrap();
    let expected = if first { addrs.first() } else { addrs.last() };
    assert_eq!(ip_addr, expected.unwrap().clone());
}

fn drain<C: DnsClient>(lookup: &mut Lookup<C>) -> Vec<Target> {
    let mut got = vec![];
    while let Some(target) = lookup.resolve_next() {
        got.push(target);
    }
    got
}

fn full_a_records() -> ARecords {
    let mut a_records = ARecords::new();
    a_records.insert(d("tcp-server1.example.com"), vec![ip(1, 1), ip(1, 2)]);
    a_records.insert(d("tcp-server2.example.com"), vec![ip(2, 1), ip(2, 2)]);
    a_records.insert(d("udp-server1.example.com"), vec![ip(3, 1), ip(3, 2)]);
    a_records.insert(d("udp-server2.example.com"), vec![ip(4, 1), ip(4, 2)]);
    a_records.insert(d("ws-server1.example.com"), vec![ip(5, 1), ip(5, 2)]);
    a_records.insert(d("ws-server2.example.com"), vec![ip(6, 1), ip(6, 2)]);
    a_records.insert(d("tls-sctp-server1.example.com"), vec![ip(7, 1), ip(7, 2)]);
    a_records.insert(d("example.com"), vec![ip(8, 1), ip(8, 2)]);
    a_records
}

fn full_srv_map() -> SrvMap {
    let mut srv_map = SrvMap::new();
    srv_map.insert(
        SrvDomain::try_from("_sips._tcp.example.com").unwrap(),
        vec![
            (100, 5, 10000.into(), d("tcp-server1.example.com")),
            (50, 5, 5066.into(), d("tcp-server2.example.com")),
        ],
    );
    srv_map.insert(
        SrvDomain::try_from("_sip._udp.example.com").unwrap(),
        vec![
            (100, 5, 20000.into(), d("udp-server1.example.com")),
            (50, 5, 5060.into(), d("udp-server2.example.com")),
        ],
    );
    srv_map.insert(
        SrvDomain::try_from("_sips._tls-sctp.example.com").unwrap(),
        vec![(100, 5, 2222.into(), d("tls-sctp-server1.example.com"))],
    );
    srv_map.insert(
        SrvDomain::try_from("_sips._wss.example.com").unwrap(),
        vec![
            (100, 5, 443.into(), d("ws-server1.example.com")),
            (50, 5, 8080.into(), d("ws-server2.example.com")),
        ],
    );
    srv_map
}

fn full_naptr_map() -> NaptrMap {
    let mut naptr_map = NaptrMap::new();
    naptr_map.insert(
        d("example.com"),
        vec![
            (50, 5, NaptrFlags::S, NaptrServices::SipsD2t, SrvDomain::try_from("_sips._tcp.example.com").unwrap()),
            (60, 5, NaptrFlags::S, NaptrServices::SipD2u, SrvDomain::try_from("_sip._udp.example.com").unwrap()),
            (100, 5, NaptrFlags::S, NaptrServices::SipsD2w, SrvDomain::try_from("_sips._wss.example.com").unwrap()),
        ],
    );
    naptr_map
}

#[test]
fn ip_addr_context_lookup() {
    let host_ip_addr = IpAddr::V4(192, 0, 2, 77);
    let uri = make_uri(None, Host::IpAddr(host_ip_addr), None, None);

    let mut lookup =
        Lookup::from(Context::initialize_from(uri, PanicDnsClient, SupportedTransports::any()).unwrap());
    assert!(matches!(lookup, Lookup::IpAddr { .. }));

    let Target { ip_addr, port, transport } = lookup.resolve_next().unwrap();
    assert_eq!(ip_addr, host_ip_addr);
    assert_eq!(port, 5060.into());
    assert_eq!(transport, Transport::Udp);

    assert!(lookup.resolve_next().is_none());
}

#[test]
fn domain_with_port_context_lookup() {
    for scheme in [Scheme::Sip, Scheme::Sips] {
        let mut a_records = ARecords::new();
        a_records.insert(d("example.com"), vec![ip(1, 1), ip(1, 2)]);

        let dns_client = CustomDnsClient::new(None, None, Some(a_records.clone()));

        let uri = make_uri(Some(scheme.clone()), Host::Domain(d("example.com")), Some(5060), None);

        let mut lookup = Lookup::from(
            Context::initialize_from(uri, dns_client.clone(), SupportedTransports::any()).unwrap(),
        );

        assert!(matches!(lookup, Lookup::DomainWithPort { .. }));

        let expected_transport = match scheme {
            Scheme::Sips => Transport::Tls,
            _ => Transport::Udp,
        };

        assert_lookup(&mut lookup, &a_records, expected_transport, 5060, "example.com", true);
        assert_lookup(&mut lookup, &a_records, expected_transport, 5060, "example.com", false);

        assert!(lookup.resolve_next().is_none());
    }
}

#[test]
fn domain_with_transport_context_lookup() {

    let mut srv_map = full_srv_map();
    srv_map.remove(&SrvDomain::try_from("_sips._wss.example.com").unwrap());
    //should not be used since we specify a transport
    srv_map.insert(
        SrvDomain::try_from("_sips._ws.example.com").unwrap(),
        vec![
            (100, 5, 443.into(), d("ws-server1.example.com")),
            (50, 5, 8080.into(), d("ws-server2.example.com")),
        ],
    );
    let a_records = full_a_records();

    let dns_client = CustomDnsClient::new(None, Some(srv_map), Some(a_records.clone()));

    let context = Context {
        secure: true,
        transport: Some(Transport::Tcp),
        host: Host::Domain(d("example.com")),
        port: None,
        dns_client: dns_client.clone(),
        supported_transports: SupportedTransports::any(),
    };

    let mut lookup = Lookup::from(context);

    assert!(matches!(lookup, Lookup::DomainWithTransport { .. }));

    assert_lookup(&mut lookup, &a_records, Tls, 10000, "tcp-server1.example.com", true);
    assert_lookup(&mut lookup, &a_records, Tls, 10000, "tcp-server1.example.com", false);

    assert_lookup(&mut lookup, &a_records, Tls, 5066, "tcp-server2.example.com", true);
    assert_lookup(&mut lookup, &a_records, Tls, 5066, "tcp-server2.example.com", false);

    assert_lookup(&mut lookup, &a_records, Tls, 5061, "example.com", true);
    assert_lookup(&mut lookup, &a_records, Tls, 5061, "example.com", false);

    assert_eq!(lookup.resolve_next(), None);
}

#[test]
fn just_domain_context_lookup() {

    let a_records = full_a_records();
    let dns_client =
        CustomDnsClient::new(Some(full_naptr_map()), Some(full_srv_map()), Some(a_records.clone()));

    let context = Context {
        secure: true,
        transport: None,
        host: Host::Domain(d("example.com")),
        port: None,
        dns_client: dns_client.clone(),
        supported_transports: SupportedTransports::any(),
    };

    let mut lookup = Lookup::from(context);

    assert!(matches!(lookup, Lookup::JustDomain { .. }));

    assert_lookup(&mut lookup, &a_records, Tls, 10000, "tcp-server1.example.com", true);
    assert_lookup(&mut lookup, &a_records, Tls, 10000, "tcp-server1.example.com", false);

    assert_lookup(&mut lookup, &a_records, Tls, 5066, "tcp-server2.example.com", true);
    assert_lookup(&mut lookup, &a_records, Tls, 5066, "tcp-server2.example.com", false);

    assert_lookup(&mut lookup, &a_records, Wss, 443, "ws-server1.example.com", true);
    assert_lookup(&mut lookup, &a_records, Wss, 443, "ws-server1.example.com", false);

    assert_lookup(&mut lookup, &a_records, Wss, 8080, "ws-server2.example.com", true);
    assert_lookup(&mut lookup, &a_records, Wss, 8080, "ws-server2.example.com", false);

    assert_lookup(&mut lookup, &a_records, Tls, 10000, "tcp-server1.example.com", true);
    assert_lookup(&mut lookup, &a_records, Tls, 10000, "tcp-server1.example.com", false);

    assert_lookup(&mut lookup, &a_records, Tls, 5066, "tcp-server2.example.com", true);
    assert_lookup(&mut lookup, &a_records, Tls, 5066, "tcp-server2.example.com", false);

    assert_lookup(&mut lookup, &a_records, TlsSctp, 2222, "tls-sctp-server1.example.com", true);
    assert_lookup(&mut lookup, &a_records, TlsSctp, 2222, "tls-sctp-server1.example.com", false);

    assert_lookup(&mut lookup, &a_records, Wss, 443, "ws-server1.example.com", true);
    assert_lookup(&mut lookup, &a_records, Wss, 443, "ws-server1.example.com", false);

    assert_lookup(&mut lookup, &a_records, Wss, 8080, "ws-server2.example.com", true);
    assert_lookup(&mut lookup, &a_records, Wss, 8080, "ws-server2.example.com", false);

    assert_lookup(&mut lookup, &a_records, Tls, 5061, "example.com", true);
    assert_lookup(&mut lookup, &a_records, Tls, 5061, "example.com", false);

    assert!(lookup.resolve_next().is_none());
}

#[test]
fn scenario_ip() {
    let uri = make_uri(Some(Scheme::Sip), Host::IpAddr(IpAddr::V4(192, 0, 2, 10)), None, None);
    let mut lookup =
        Lookup::from(Context::initialize_from(uri, PanicDnsClient, SupportedTransports::any()).unwrap());
    assert_eq!(
        lookup.resolve_next(),
        Some(Target { ip_addr: IpAddr::V4(192, 0, 2, 10), port: Port(5060), transport: Transport::Udp })
    );
    assert_eq!(lookup.resolve_next(), None);
}

#[test]
fn scenario_ip_secure() {
    let uri = make_uri(Some(Scheme::Sips), Host::IpAddr(IpAddr::V4(192, 0, 2, 10)), None, None);
    let mut lookup =
        Lookup::from(Context::initialize_from(uri, PanicDnsClient, SupportedTransports::any()).unwrap());
    assert_eq!(
        lookup.resolve_next(),
        Some(Target { ip_addr: IpAddr::V4(192, 0, 2, 10), port: Port(5061), transport: Transport::Tls })
    );
    assert_eq!(lookup.resolve_next(), None);
}

#[test]
fn ip_host_never_asks_dns() {
    let ip_addr = IpAddr::V6(0x2001, 0xdb8, 0, 0, 0, 0, 0, 0x10);
    for secure in [false, true] {
        for port in [None, Some(Port(5070))] {
            for transport in [None, Some(Transport::Tcp), Some(Transport::Wss)] {
                let context = Context {
                    secure,
                    host: Host::IpAddr(ip_addr),
                    port,
                    transport,
                    dns_client: PanicDnsClient,
                    supported_transports: SupportedTransports::only(vec![]),
                };
                let expected_transport = context.default_transport();
                let mut lookup = Lookup::from(context);
                assert!(matches!(lookup, Lookup::IpAddr(_)));
                let expected = Target {
                    ip_addr,
                    port: port.unwrap_or(expected_transport.default_port()),
                    transport: expected_transport,
                };
                assert_eq!(lookup.resolve_next(), Some(expected));
                assert_eq!(lookup.resolve_next(), None);
                assert!(matches!(lookup.advance(), Step::Done));
            }
        }
    }
}

#[test]
fn scenario_domain_with_port() {
    let mut a_records = ARecords::new();
    a_records.insert(d("example.com"), vec![IpAddr::V4(203, 0, 113, 1), IpAddr::V4(203, 0, 113, 2)]);
    let dns_client = CustomDnsClient::new(None, None, Some(a_records));
    let uri = make_uri(Some(Scheme::Sip), Host::Domain(d("example.com")), Some(5060), None);
    let mut lookup =
        Lookup::from(Context::initialize_from(uri, dns_client.clone(), SupportedTransports::any()).unwrap());
    assert_eq!(
        drain(&mut lookup),
        vec![
            Target { ip_addr: IpAddr::V4(203, 0, 113, 1), port: Port(5060), transport: Transport::Udp },
            Target { ip_addr: IpAddr::V4(203, 0, 113, 2), port: Port(5060), transport: Transport::Udp },
        ]
    );
    assert_eq!(dns_client.asked(), vec!["A example.com"]);
}

#[test]
fn domain_with_port_uses_the_transport_given() {
    let mut a_records = ARecords::new();
    a_records.insert(d("example.com"), vec![ip(1, 1)]);
    let dns_client = CustomDnsClient::new(None, None, Some(a_records));
    let uri = make_uri(Some(Scheme::Sip), Host::Domain(d("example.com")), Some(7000), Some(Transport::Ws));
    let mut lookup =
        Lookup::from(Context::initialize_from(uri, dns_client.clone(), SupportedTransports::any()).unwrap());
    assert_eq!(drain(&mut lookup), vec![Target { ip_addr: ip(1, 1), port: Port(7000), transport: Transport::Ws }]);
    assert_eq!(dns_client.asked(), vec!["A example.com"]);
}

#[test]
fn scenario_domain_with_transport() {
    let mut srv_map = SrvMap::new();
    srv_map.insert(
        SrvDomain::try_from("_sips._tcp.example.com").unwrap(),
        vec![(100, 5, Port(10000), d("srv1.example.com")), (50, 5, Port(5066), d("srv2.example.com"))],
    );
    let mut a_records = ARecords::new();
    a_records.insert(d("srv1.example.com"), vec![ip(1, 1), ip(1, 2)]);
    a_records.insert(d("srv2.example.com"), vec![ip(2, 1), ip(2, 2)]);
    a_records.insert(d("example.com"), vec![ip(3, 1), ip(3, 2)]);
    let dns_client = CustomDnsClient::new(None, Some(srv_map), Some(a_records));
    let context = Context {
        secure: true,
        transport: Some(Transport::Tcp),
        host: Host::Domain(d("example.com")),
        port: None,
        dns_client: dns_client.clone(),
        supported_transports: SupportedTransports::any(),
    };
    let mut lookup = Lookup::from(context);
    let t = |third, last, port| Target { ip_addr: ip(third, last), port: Port(port), transport: Transport::Tls };
    assert_eq!(
        drain(&mut lookup),
        vec![t(1, 1, 10000), t(1, 2, 10000), t(2, 1, 5066), t(2, 2, 5066), t(3, 1, 5061), t(3, 2, 5061)]
    );
    assert_eq!(lookup.resolve_next(), None);
    assert_eq!(
        dns_client.asked(),
        vec!["SRV _sips._tcp.example.com", "A srv1.example.com", "A srv2.example.com", "A example.com"]
    );
}

#[test]
fn domain_with_transport_without_srv_falls_back_to_the_domain() {
    let mut a_records = ARecords::new();
    a_records.insert(d("example.com"), vec![ip(3, 1)]);
    let dns_client = CustomDnsClient::new(None, Some(SrvMap::new()), Some(a_records));
    let uri = make_uri(Some(Scheme::Sip), Host::Domain(d("example.com")), None, Some(Transport::Ws));
    let mut lookup =
        Lookup::from(Context::initialize_from(uri, dns_client.clone(), SupportedTransports::any()).unwrap());
    assert_eq!(drain(&mut lookup), vec![Target { ip_addr: ip(3, 1), port: Port(80), transport: Transport::Ws }]);
    assert_eq!(dns_client.asked(), vec!["SRV _sip._ws.example.com", "A example.com"]);
}

#[test]
fn scenario_just_domain_without_naptr_and_one_srv() {
    let mut srv_map = SrvMap::new();
    srv_map.insert(
        SrvDomain::try_from("_sip._tcp.example.com").unwrap(),
        vec![(10, 1, Port(5080), d("tcp.example.com"))],
    );
    let mut a_records = ARecords::new();
    a_records.insert(d("tcp.example.com"), vec![ip(1, 1)]);
    a_records.insert(d("example.com"), vec![ip(9, 9)]);
    let dns_client = CustomDnsClient::new(Some(NaptrMap::new()), Some(srv_map), Some(a_records));
    let uri = make_uri(Some(Scheme::Sip), Host::Domain(d("example.com")), None, None);
    let mut lookup = Lookup::from(
        Context::initialize_from(uri, dns_client.clone(), SupportedTransports::only(vec![Udp, Tcp, Ws])).unwrap(),
    );
    assert!(matches!(lookup, Lookup::JustDomain(_)));
    assert_eq!(
        drain(&mut lookup),
        vec![
            Target { ip_addr: ip(1, 1), port: Port(5080), transport: Transport::Tcp },
            Target { ip_addr: ip(9, 9), port: Port(5060), transport: Transport::Udp },
        ]
    );
    assert_eq!(
        dns_client.asked(),
        vec![
            "NAPTR example.com",
            "SRV _sip._udp.example.com",
            "SRV _sip._tcp.example.com",
            "A tcp.example.com",
            "SRV _sip._ws.example.com",
            "A example.com",
        ]
    );
}

#[test]
fn just_domain_asks_for_every_available_transport_in_order() {
    let dns_client = CustomDnsClient::new(Some(NaptrMap::new()), Some(SrvMap::new()), Some(ARecords::new()));
    let uri = make_uri(Some(Scheme::Sip), Host::Domain(d("example.com")), None, None);
    let mut lookup =
        Lookup::from(Context::initialize_from(uri, dns_client.clone(), SupportedTransports::any()).unwrap());
    assert_eq!(lookup.resolve_next(), None);
    assert_eq!(
        dns_client.asked(),
        vec![
            "NAPTR example.com",
            "SRV _sip._udp.example.com",
            "SRV _sip._tcp.example.com",
            "SRV _sip._tcp.example.com",
            "SRV _sip._sctp.example.com",
            "SRV _sip._sctp.example.com",
            "SRV _sip._ws.example.com",
            "SRV _sip._ws.example.com",
            "A example.com",
        ]
    );
}

#[test]
fn just_domain_with_nothing_in_dns_yields_nothing() {
    let dns_client = CustomDnsClient::new(Some(NaptrMap::new()), Some(SrvMap::new()), Some(ARecords::new()));
    let uri = make_uri(Some(Scheme::Sips), Host::Domain(d("example.com")), None, None);
    let mut lookup = Lookup::from(
        Context::initialize_from(uri, dns_client.clone(), SupportedTransports::only(vec![Transport::Tls, Transport::Udp]))
            .unwrap(),
    );
    assert_eq!(lookup.state(), ResolvableState::NonEmpty);
    assert_eq!(lookup.resolve_next(), None);
    assert_eq!(lookup.state(), ResolvableState::Empty);
    assert_eq!(dns_client.asked(), vec!["NAPTR example.com", "SRV _sips._tcp.example.com", "A example.com"]);
}

#[test]
fn exhaustion_is_stable() {
    let a_records = full_a_records();
    let dns_client = CustomDnsClient::new(Some(full_naptr_map()), Some(full_srv_map()), Some(a_records));
    let context = Context {
        secure: false,
        transport: None,
        host: Host::Domain(d("example.com")),
        port: None,
        dns_client: dns_client.clone(),
        supported_transports: SupportedTransports::any(),
    };
    let mut lookup = Lookup::from(context);
    assert!(!drain(&mut lookup).is_empty());
    let asked = dns_client.asked().len();
    for _ in 0..5 {
        assert_eq!(lookup.resolve_next(), None);
        assert_eq!(lookup.state(), ResolvableState::Empty);
        assert!(lookup.is_empty());
    }
    assert_eq!(dns_client.asked().len(), asked);
}

#[test]
fn secure_context_yields_only_secure_transports() {
    let mut naptr_map = full_naptr_map();
    naptr_map.get_mut(&d("example.com")).unwrap().push((
        1,
        1,
        NaptrFlags::S,
        NaptrServices::SipsD2t,
        SrvDomain::try_from("_sip._udp.example.com").unwrap(),
    ));
    let dns_client = CustomDnsClient::new(Some(naptr_map), Some(full_srv_map()), Some(full_a_records()));
    for transport in [None, Some(Transport::Tls), Some(Transport::Wss), Some(Transport::TlsSctp)] {
        for port in [None, Some(5061)] {
            let uri = make_uri(Some(Scheme::Sips), Host::Domain(d("example.com")), port, transport);
            let mut lookup = Lookup::from(
                Context::initialize_from(uri, dns_client.clone(), SupportedTransports::any()).unwrap(),
            );
            let targets = drain(&mut lookup);
            assert!(!targets.is_empty());
            assert!(targets.iter().all(|t| t.transport.is_secure()));
        }
    }
}

#[test]
fn context_from_uri() {
    let uri = make_uri(Some(Scheme::Sips), Host::Domain(d("example.com")), Some(5061), Some(Transport::Tls));
    let context = Context::initialize_from(uri, PanicDnsClient, SupportedTransports::any()).unwrap();
    assert!(context.secure);
    assert_eq!(context.host, Host::Domain(d("example.com")));
    assert_eq!(context.port, Some(Port(5061)));
    assert_eq!(context.transport, Some(Transport::Tls));
    assert_eq!(context.supported_transports.all(), &Transport::all());

    let plain = uri_without_scheme();
    let context = Context::initialize_from(plain, PanicDnsClient, SupportedTransports::default()).unwrap();
    assert!(!context.secure);
    assert_eq!(context.transport, Some(Transport::Udp));
}

fn uri_without_scheme() -> Uri {
    make_uri(None, Host::Domain(d("example.com")), None, Some(Transport::Udp))
}

#[test]
fn construction_rejects() {
    for transport in [Transport::Udp, Transport::Tcp, Transport::Sctp, Transport::Ws] {
        let uri = make_uri(Some(Scheme::Sips), Host::Domain(d("example.com")), None, Some(transport));
        let r = Context::initialize_from(uri, PanicDnsClient, SupportedTransports::any());
        assert!(matches!(r, Err(Error::Unexpected(_))));
    }
    let uri = make_uri(Some(Scheme::Other("http".to_string())), Host::Domain(d("example.com")), None, None);
    let r = Context::initialize_from(uri, PanicDnsClient, SupportedTransports::any());
    assert!(matches!(r, Err(Error::Unexpected(_))));
    for transport in Transport::all() {
        let uri = make_uri(Some(Scheme::Sip), Host::Domain(d("example.com")), None, Some(transport));
        assert!(Context::initialize_from(uri, PanicDnsClient, SupportedTransports::any()).is_ok());
    }
}

#[test]
fn default_transport_rule() {
    let make = |secure, transport| Context {
        secure,
        host: Host::Domain(d("example.com")),
        port: None,
        transport,
        dns_client: PanicDnsClient,
        supported_transports: SupportedTransports::any(),
    };
    assert_eq!(make(true, None).default_transport(), Transport::Tls);
    assert_eq!(make(false, None).default_transport(), Transport::Udp);
    assert_eq!(make(true, Some(Transport::Wss)).default_transport(), Transport::Wss);
    assert_eq!(make(false, Some(Transport::Sctp)).default_transport(), Transport::Sctp);
}

#[test]
fn available_transports_and_protocols() {
    let make = |secure, supported| Context {
        secure,
        host: Host::Domain(d("example.com")),
        port: None,
        transport: None,
        dns_client: PanicDnsClient,
        supported_transports: supported,
    };
    assert_eq!(make(true, SupportedTransports::any()).available_transports(), vec![Tls, TlsSctp, Wss]);
    assert_eq!(make(false, SupportedTransports::any()).available_transports(), Transport::all());
    assert_eq!(
        make(true, SupportedTransports::only(vec![Wss, Udp, Tls, Wss])).available_transports(),
        vec![Wss, Tls, Wss]
    );
    assert_eq!(make(true, SupportedTransports::only(vec![Udp, Tcp])).available_transports(), vec![]);
    assert_eq!(make(false, SupportedTransports::only(vec![Udp, Tls])).available_transports(), vec![Udp, Tls]);
    assert_eq!(make(true, SupportedTransports::any()).available_protocols(), vec![Tcp, Sctp, Ws]);
    assert_eq!(make(false, SupportedTransports::any()).available_protocols(), vec![Udp, Tcp, Sctp, Ws]);
    assert_eq!(SupportedTransports::only(vec![Ws, Udp]).into_vec(), vec![Ws, Udp]);
}

#[test]
fn lookup_steps_by_hand() {
    let context = Context {
        secure: false,
        transport: Some(Transport::Tcp),
        host: Host::Domain(d("example.com")),
        port: None,
        dns_client: PanicDnsClient,
        supported_transports: SupportedTransports::any(),
    };
    let mut lookup = Lookup::from(context);
    let mut queries = vec![];
    let mut targets = vec![];
    let a_records = full_a_records();
    let dns = CustomDnsClient::new(None, Some(SrvMap::new()), Some(a_records));
    loop {
        match lookup.advance() {
            Step::Item(target) => targets.push(target),
            Step::Done => break,
            Step::Query(query) => {
                queries.push(match &query {
                    DnsQuery::Naptr(domain) => format!("NAPTR {}", domain.as_str()),
                    DnsQuery::Srv(name) => format!("SRV {}", name.to_string()),
                    DnsQuery::Addr(domain) => format!("A {}", domain.as_str()),
                });
                let answer = perform(&dns, query);
                assert!(matches!(answer, DnsAnswer::Srv(_) | DnsAnswer::Addr(_)));
                lookup.supply(answer);
            },
        }
    }
    assert_eq!(queries, vec!["SRV _sip._tcp.example.com", "A example.com"]);
    assert_eq!(
        targets,
        vec![
            Target { ip_addr: ip(8, 1), port: Port(5060), transport: Transport::Tcp },
            Target { ip_addr: ip(8, 2), port: Port(5060), transport: Transport::Tcp },
        ]
    );
    assert_eq!(lookup.state(), ResolvableState::Empty);
}

// If the host is a numeric IP address, that address is used. If a port is
// given, it is used, else the default port of the transport.
#[test]
fn randomized_with_ip_address() {
    //without port
    {
        let ip_addr = ip(42, 1);
        let context = Context {
            secure: false,
            host: Host::IpAddr(ip_addr),
            port: None,
            transport: Some(Transport::Sctp),
            dns_client: PanicDnsClient,
            supported_transports: SupportedTransports::default(),
        };
        let mut lookup = Lookup::from(context);
        assert_eq!(drain(&mut lookup).iter().map(|t| t.ip_addr).collect::<Vec<_>>(), vec![ip_addr]);
    }

    //with port
    {
        let ip_addr = ip(42, 2);
        let context = Context {
            secure: false,
            host: Host::IpAddr(ip_addr),
            port: Some(5070.into()),
            transport: Some(Transport::Tcp),
            dns_client: PanicDnsClient,
            supported_transports: SupportedTransports::default(),
        };
        let mut lookup = Lookup::from(context);
        assert_eq!(
            drain(&mut lookup),
            vec![Target { ip_addr, port: Port(5070), transport: Transport::Tcp }]
        );
    }
}

// If the host is a domain and a port is given, the addresses of the domain
// are looked up, and each is tried at that port.
#[test]
fn randomized_with_domain_and_port() {
    let mut a_records = ARecords::new();
    a_records.insert(d("pbx.example.org"), vec![ip(43, 1)]);
    let dns_client = CustomDnsClient::new(None, None, Some(a_records.clone()));
    let context = Context {
        secure: false,
        host: Host::Domain(d("pbx.example.org")),
        port: Some(5060.into()),
        transport: Some(Transport::Ws),
        dns_client: dns_client.clone(),
        supported_transports: SupportedTransports::default(),
    };
    let mut lookup = Lookup::from(context);

    assert_eq!(
        drain(&mut lookup).iter().map(|t| t.ip_addr).collect::<Vec<_>>(),
        a_records.get(&d("pbx.example.org")).cloned().unwrap()
    );
}

#[test]
fn a_cloned_lookup_goes_its_own_way() {
    let mut a_records = ARecords::new();
    a_records.insert(d("example.com"), vec![ip(1, 1), ip(1, 2), ip(1, 3)]);
    let dns_client = CustomDnsClient::new(None, None, Some(a_records));
    let context = Context {
        secure: false,
        host: Host::Domain(d("example.com")),
        port: Some(Port(5060)),
        transport: None,
        dns_client,
        supported_transports: SupportedTransports::any(),
    };
    let mut lookup = Lookup::from(context.clone());
    assert_eq!(lookup.resolve_next().map(|t| t.ip_addr), Some(ip(1, 1)));
    let mut copy = lookup.clone();
    assert_eq!(lookup.resolve_next().map(|t| t.ip_addr), Some(ip(1, 2)));
    assert_eq!(lookup.resolve_next().map(|t| t.ip_addr), Some(ip(1, 3)));
    assert_eq!(lookup.resolve_next(), None);
    assert_eq!(copy.resolve_next().map(|t| t.ip_addr), Some(ip(1, 2)));
    assert_eq!(copy.state(), ResolvableState::NonEmpty);
    assert_eq!(drain(&mut copy).len(), 1);
}
