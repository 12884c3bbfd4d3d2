use rsip_dns::records::{
    AddrRecord, NaptrEntry, NaptrFlags, NaptrRecord, NaptrServices, SrvEntry, SrvRecord,
};
use rsip_dns::{Domain, Error, IpAddr, Port, SrvDomain, Target, Transport};
use rsip_dns::records::NaptrServices::{
    Other, SipD2s, SipD2t, SipD2u, SipD2w, SipsD2s, SipsD2t, SipsD2u, SipsD2w,
};
use rsip_dns::Transport::{Sctp, Tcp, Tls, TlsSctp, Udp, Ws, Wss};

#[test]
fn parses_srv_domain_correctly() {
    let srv_domain_str = "_sip._tcp.example.com";
    let srv_domain = SrvDomain::try_from(srv_domain_str).unwrap();
    assert_eq!(srv_domain.secure, false);
    assert_eq!(srv_domain.protocol, Transport::Tcp);
    assert_eq!(srv_domain.domain, Domain::from("example.com"));
    assert_eq!(srv_domain.transport(), Transport::Tcp);
    assert_eq!(srv_domain.to_string(), srv_domain_str);

    let srv_domain_str = "_sips._tcp.example.com";
    let srv_domain = SrvDomain::try_from(srv_domain_str).unwrap();
    assert_eq!(srv_domain.secure, true);
    assert_eq!(srv_domain.protocol, Transport::Tcp);
    assert_eq!(srv_domain.domain, Domain::from("example.com"));
    assert_eq!(srv_domain.transport(), Transport::Tls);
    assert_eq!(srv_domain.to_string(), srv_domain_str);

    //doesn't make sense but no precautions are taken here
    let srv_domain_str = "_sips._udp.example.com";
    let srv_domain = SrvDomain::try_from(srv_domain_str).unwrap();
    assert_eq!(srv_domain.secure, true);
    assert_eq!(srv_domain.protocol, Transport::Udp);
    assert_eq!(srv_domain.domain, Domain::from("example.com"));
    assert_eq!(srv_domain.transport(), Transport::Udp);
    assert_eq!(srv_domain.to_string(), srv_domain_str);

    let srv_domain_str = "_sips._ws.example.com";
    let srv_domain = SrvDomain::try_from(srv_domain_str).unwrap();
    assert_eq!(srv_domain.secure, true);
    assert_eq!(srv_domain.protocol, Transport::Ws);
    assert_eq!(srv_domain.domain, Domain::from("example.com"));
    assert_eq!(srv_domain.transport(), Transport::Wss);
    assert_eq!(srv_domain.to_string(), srv_domain_str);

    let srv_domain_str = "_sips._sctp.example.com";
    let srv_domain = SrvDomain::try_from(srv_domain_str).unwrap();
    assert_eq!(srv_domain.secure, true);
    assert_eq!(srv_domain.protocol, Transport::Sctp);
    assert_eq!(srv_domain.domain, Domain::from("example.com"));
    assert_eq!(srv_domain.transport(), Transport::TlsSctp);
    assert_eq!(srv_domain.to_string(), srv_domain_str);
}

#[test]
fn srv_domain_reads_transport_names_in_any_case() {
    let name = SrvDomain::try_from("_SIP._TcP.example.com").unwrap();
    assert_eq!(name.secure, false);
    assert_eq!(name.protocol, Transport::Tcp);
    let name = SrvDomain::try_from("_Sips._UDP.example.com").unwrap();
    assert_eq!(name.secure, true);
    assert_eq!(name.protocol, Transport::Udp);
}

#[test]
fn srv_domain_reduces_a_secure_transport_to_its_protocol() {
    let name = SrvDomain::try_from("_sips._tls.example.com").unwrap();
    assert_eq!(name.protocol, Transport::Tcp);
    let name = SrvDomain::try_from("_sips._wss.example.com").unwrap();
    assert_eq!(name.protocol, Transport::Ws);
    assert_eq!(name.to_string(), "_sips._ws.example.com");
    let name = SrvDomain::try_from("_sips._tls-sctp.example.com").unwrap();
    assert_eq!(name.protocol, Transport::Sctp);
    assert_eq!(name.transport(), Transport::TlsSctp);
}

#[test]
fn srv_domain_keeps_everything_behind_the_second_label() {
    let name = SrvDomain::try_from("_sip._udp.a.b.c.example.com.").unwrap();
    assert_eq!(name.domain, Domain::from("a.b.c.example.com."));
    let name = SrvDomain::try_from("_sip._udp.").unwrap();
    assert_eq!(name.domain, Domain::from(""));
    let name = SrvDomain::try_from("_sip._udp.b\u{fc}cher.example").unwrap();
    assert_eq!(name.domain, Domain::from("b\u{fc}cher.example"));
}

#[test]
fn srv_domain_refuses_a_broken_frame() {
    for text in ["", "sip._tcp.example.com", "_sip", "_sip.tcp.example.com", "_sip._tcp", "_sip._"] {
        assert!(matches!(SrvDomain::try_from(text), Err(Error::TokenizeError(_))), "{}", text);
    }
}

#[test]
fn srv_domain_refuses_other_schemes() {
    assert!(matches!(SrvDomain::try_from("_http._tcp.example.com"), Err(Error::Unexpected(_))));
    assert!(matches!(SrvDomain::try_from("_._tcp.example.com"), Err(Error::Unexpected(_))));
    assert!(matches!(SrvDomain::try_from("_sipss._tcp.example.com"), Err(Error::Unexpected(_))));
}

#[test]
fn srv_domain_refuses_unknown_transports() {
    assert!(matches!(SrvDomain::try_from("_sip._quic.example.com"), Err(Error::ParseError(_))));
    assert!(matches!(SrvDomain::try_from("_sip._.example.com"), Err(Error::ParseError(_))));
    assert!(matches!(SrvDomain::try_from("_sips._tcpx.example.com"), Err(Error::ParseError(_))));
}

#[test]
fn srv_domain_round_trip() {
    for secure in [false, true] {
        for protocol in [Transport::Udp, Transport::Tcp, Transport::Sctp, Transport::Ws] {
            for domain in ["example.com", "", "a.b", "_sip._tcp.nested", "x"] {
                let name = SrvDomain { domain: Domain::from(domain), protocol, secure };
                let text = name.to_string();
                assert_eq!(SrvDomain::try_from(text.as_str()).unwrap(), name);
            }
        }
    }
}

#[test]
fn srv_domain_formats() {
    let name = SrvDomain { domain: Domain::from("example.com"), protocol: Transport::Sctp, secure: false };
    assert_eq!(name.to_string(), "_sip._sctp.example.com");
    let name = SrvDomain { domain: Domain::from("example.com"), protocol: Transport::Ws, secure: true };
    assert_eq!(name.to_string(), "_sips._ws.example.com");
    assert_eq!(SrvDomain::prefix(true, Transport::Tcp), "_sips._tcp.");
    assert_eq!(SrvDomain::prefix(false, Transport::Udp), "_sip._udp.");
}

#[test]
fn srv_domain_effective_transport() {
    let make = |secure, protocol| SrvDomain { domain: Domain::from("d"), protocol, secure };
    assert_eq!(make(true, Transport::Tcp).transport(), Transport::Tls);
    assert_eq!(make(true, Transport::Sctp).transport(), Transport::TlsSctp);
    assert_eq!(make(true, Transport::Ws).transport(), Transport::Wss);
    assert_eq!(make(true, Transport::Udp).transport(), Transport::Udp);
    assert_eq!(make(false, Transport::Tcp).transport(), Transport::Tcp);
    assert_eq!(make(false, Transport::Ws).transport(), Transport::Ws);
    assert_eq!(make(true, Transport::Tls).transport(), Transport::Tls);
}

#[test]
fn srv_domain_from_domain_and_pair() {
    let name = SrvDomain::try_from_domain(&Domain::from("_sips._tcp.example.com")).unwrap();
    assert_eq!(name, SrvDomain { domain: Domain::from("example.com"), protocol: Transport::Tcp, secure: true });
    assert!(SrvDomain::try_from_domain(&Domain::from("example.com")).is_err());
    let name = SrvDomain::from((Domain::from("example.com"), Transport::Tls));
    assert_eq!(name, SrvDomain { domain: Domain::from("example.com"), protocol: Transport::Tcp, secure: false });
}

fn entry(flags: NaptrFlags, services: NaptrServices, replacement: &str) -> NaptrEntry {
    NaptrEntry {
        order: 10,
        preference: 20,
        flags,
        services,
        regexp: vec![],
        replacement: Domain::from(replacement),
    }
}

#[test]
fn srv_domain_of_a_naptr_entry() {
    let name = SrvDomain::try_from_naptr_entry(&entry(
        NaptrFlags::S,
        NaptrServices::SipsD2t,
        "_sips._tcp.example.com",
    ))
    .unwrap();
    assert_eq!(name, SrvDomain { domain: Domain::from("example.com"), protocol: Transport::Tcp, secure: true });
    assert_eq!(name.transport(), Transport::Tls);

    let name = SrvDomain::try_from_naptr_entry(&entry(
        NaptrFlags::S,
        NaptrServices::SipsD2w,
        "_sips._ws.example.com",
    ))
    .unwrap();
    assert_eq!(name, SrvDomain { domain: Domain::from("example.com"), protocol: Transport::Ws, secure: true });

    let name = SrvDomain::try_from_naptr_entry(&entry(
        NaptrFlags::S,
        NaptrServices::SipD2u,
        "_sip._udp.sip.example.org.",
    ))
    .unwrap();
    assert_eq!(name, SrvDomain { domain: Domain::from("sip.example.org."), protocol: Transport::Udp, secure: false });
}

#[test]
fn srv_domain_of_a_naptr_entry_keeps_a_replacement_without_the_prefix() {
    let name = SrvDomain::try_from_naptr_entry(&entry(
        NaptrFlags::S,
        NaptrServices::SipD2t,
        "_sips._tcp.example.com.",
    ))
    .unwrap();
    assert_eq!(
        name,
        SrvDomain { domain: Domain::from("_sips._tcp.example.com."), protocol: Transport::Tcp, secure: false }
    );
    let name =
        SrvDomain::try_from_naptr_entry(&entry(NaptrFlags::S, NaptrServices::SipD2t, "pbx.example.com")).unwrap();
    assert_eq!(name.domain, Domain::from("pbx.example.com"));
    let name = SrvDomain::try_from_naptr_entry(&entry(NaptrFlags::S, NaptrServices::SipD2t, "_sip")).unwrap();
    assert_eq!(name.domain, Domain::from("_sip"));
}

#[test]
fn srv_domain_of_a_naptr_entry_without_transport() {
    for services in [
        NaptrServices::SipsD2u,
        NaptrServices::SipsD2s,
        NaptrServices::Other("E2U+sip".to_string()),
    ] {
        let r = SrvDomain::try_from_naptr_entry(&entry(NaptrFlags::S, services, "_sips._udp.example.com"));
        assert!(matches!(r, Err(Error::Unexpected(_))));
    }
}

#[test]
fn srv_domain_list_from() {
    let list = SrvDomain::list_from(Domain::from("example.com"), true, vec![Transport::Tls, Transport::Udp]);
    assert_eq!(
        list,
        vec![
            SrvDomain { domain: Domain::from("example.com"), protocol: Transport::Tls, secure: false },
            SrvDomain { domain: Domain::from("example.com"), protocol: Transport::Udp, secure: false },
        ]
    );
    let list = SrvDomain::list_from(Domain::from("example.com"), true, vec![]);
    assert_eq!(
        list.iter().map(|d| d.protocol).collect::<Vec<_>>(),
        vec![Transport::Tcp, Transport::Sctp, Transport::Ws]
    );
    let list = SrvDomain::list_from(Domain::from("example.com"), false, vec![]);
    assert_eq!(
        list.iter().map(|d| d.protocol).collect::<Vec<_>>(),
        vec![Transport::Udp, Transport::Tcp, Transport::Sctp, Transport::Ws]
    );
    assert!(list.iter().all(|d| !d.secure && d.domain == Domain::from("example.com")));
}

#[test]
fn transport_tables() {
    assert_eq!(Transport::all(), vec![Udp, Tcp, Tls, Sctp, TlsSctp, Ws, Wss]);
    assert_eq!(Transport::secure_transports(), vec![Tls, TlsSctp, Wss]);
    assert_eq!(Transport::protocols(), vec![Udp, Tcp, Sctp, Ws]);
    assert_eq!(Transport::secure_protocols(), vec![Tcp, Sctp, Ws]);
    let ports = [5060, 5060, 5061, 5060, 5061, 80, 443];
    let protocols = [Udp, Tcp, Tcp, Sctp, Sctp, Ws, Ws];
    let secure = [false, false, true, false, true, false, true];
    let labels = ["udp", "tcp", "tls", "sctp", "tls-sctp", "ws", "wss"];
    for (i, t) in Transport::all().into_iter().enumerate() {
        assert_eq!(t.default_port(), Port(ports[i]));
        assert_eq!(t.protocol(), protocols[i]);
        assert_eq!(t.is_secure(), secure[i]);
        assert_eq!(t.label(), labels[i]);
    }
}

#[test]
fn transport_tables_agree_with_rsip() {
    let theirs = rsip::Transport::all();
    let ours = Transport::all();
    assert_eq!(theirs.len(), ours.len());
    for (t, o) in theirs.iter().zip(ours.iter()) {
        assert_eq!(t.to_string().to_lowercase(), o.label());
        assert_eq!(u16::from(t.default_port()), o.default_port().value());
        assert_eq!(t.protocol().to_string().to_lowercase(), o.protocol().label());
        assert_eq!(t.is_secure(), o.is_secure());
    }
}

#[test]
fn port_and_target() {
    assert_eq!(Port::from(5060), Port(5060));
    assert_eq!(Port::new(443).value(), 443);
    let target = Target::from((IpAddr::V4(192, 0, 2, 10), Port(5061), Transport::Tls));
    assert_eq!(target, Target { ip_addr: IpAddr::V4(192, 0, 2, 10), port: Port(5061), transport: Transport::Tls });
    assert_eq!(target.socket_addr(), (IpAddr::V4(192, 0, 2, 10), 5061));
}

#[test]
fn naptr_services_mapping() {
    let table = [
        (SipD2t, Some(Transport::Tcp), false),
        (SipD2u, Some(Transport::Udp), false),
        (SipD2s, Some(Transport::Sctp), false),
        (SipD2w, Some(Transport::Ws), false),
        (SipsD2t, Some(Transport::Tls), true),
        (SipsD2u, None, true),
        (SipsD2s, None, true),
        (SipsD2w, Some(Transport::Wss), true),
        (Other("E2U+sip".to_string()), None, false),
    ];
    for (services, transport, secure) in table {
        assert_eq!(services.transport(), transport);
        assert_eq!(services.secure(), secure);
    }
}

#[test]
fn naptr_services_from_bytes() {
    let table: [(&[u8], Option<Transport>, bool); 8] = [
        (b"SIP+D2T", Some(Transport::Tcp), false),
        (b"SIP+D2U", Some(Transport::Udp), false),
        (b"SIP+D2S", Some(Transport::Sctp), false),
        (b"SIP+D2W", Some(Transport::Ws), false),
        (b"SIPS+D2T", Some(Transport::Tls), true),
        (b"sips+d2u", None, true),
        (b"Sips+D2s", None, true),
        (b"sIpS+d2W", Some(Transport::Wss), true),
    ];
    for (bytes, transport, secure) in table {
        let services = NaptrServices::try_from(bytes).unwrap();
        assert_eq!(services.transport(), transport);
        assert_eq!(services.secure(), secure);
    }
    assert!(matches!(NaptrServices::try_from(b"sip+d2t").unwrap(), NaptrServices::SipD2t));
}

#[test]
fn naptr_services_from_bytes_errors() {
    for bytes in [&b"SIP+D2X"[..], b"", b"SIP+D2", b"SIP+D2TT", b"E2U+sip", b"SIP-D2T", "SIP+D2\u{fc}".as_bytes()] {
        assert!(matches!(NaptrServices::try_from(bytes), Err(Error::ParseError(_))));
    }
    for bytes in [&b"\xff"[..], b"SIP+D2\xc3", b"\xc0\x80"] {
        assert!(matches!(NaptrServices::try_from(bytes), Err(Error::Utf8Error(_))));
    }
}

#[test]
fn naptr_flags_from_bytes() {
    assert!(matches!(NaptrFlags::from(b"S"), NaptrFlags::S));
    assert!(matches!(NaptrFlags::from(b"A"), NaptrFlags::A));
    assert!(matches!(NaptrFlags::from(b"U"), NaptrFlags::U));
    assert!(matches!(NaptrFlags::from(b"P"), NaptrFlags::P));
    for bytes in [&b"s"[..], b"", b"SS", b"X", b"\xff"] {
        match NaptrFlags::from(bytes) {
            NaptrFlags::Other(other) => assert_eq!(other, bytes),
            _ => panic!("expected Other"),
        }
    }
}

#[test]
fn total_weights() {
    let e = SrvEntry { priority: 100, weight: 5, port: Port(1), target: Domain::from("a") };
    assert_eq!(e.total_weight(), 9905);
    let e = SrvEntry { priority: 0, weight: 65535, port: Port(1), target: Domain::from("a") };
    assert_eq!(e.total_weight(), 75535);
    let e = SrvEntry { priority: 65535, weight: 0, port: Port(1), target: Domain::from("a") };
    assert_eq!(e.total_weight(), -55535);
    let n = entry(NaptrFlags::S, NaptrServices::SipD2t, "x");
    assert_eq!(n.total_weight(), 30);
    let n = NaptrEntry { order: 65535, preference: 65535, ..n };
    assert_eq!(n.total_weight(), 131070);
}

fn srv_record(entries: Vec<(u16, u16, u16, &str)>) -> SrvRecord {
    SrvRecord {
        entries: entries
            .into_iter()
            .map(|(priority, weight, port, target)| SrvEntry {
                priority,
                weight,
                port: Port(port),
                target: Domain::from(target),
            })
            .collect(),
        domain: SrvDomain { domain: Domain::from("example.com"), protocol: Transport::Tcp, secure: true },
    }
}

#[test]
fn srv_record_helpers() {
    let record = srv_record(vec![(100, 5, 10000, "a.example.com"), (50, 5, 5066, "b.example.com")]);
    assert_eq!(record.targets(), vec![Domain::from("a.example.com"), Domain::from("b.example.com")]);
    assert_eq!(
        record.domains_with_ports(),
        vec![(Domain::from("a.example.com"), Port(10000)), (Domain::from("b.example.com"), Port(5066))]
    );
    assert_eq!(record.transport(), Transport::Tls);
    assert_eq!(record.into_entries().len(), 2);
}

#[test]
fn srv_record_sorted() {
    let record = srv_record(vec![
        (100, 5, 1, "a"),
        (50, 5, 2, "b"),
        (100, 5, 3, "c"),
        (10, 0, 4, "d"),
        (50, 60, 5, "e"),
        (50, 5, 6, "f"),
    ]);
    let domain = record.domain.clone();
    let sorted = record.sorted();
    assert_eq!(sorted.domain, domain);
    let order: Vec<u16> = sorted.entries.iter().map(|e| e.port.value()).collect();
    assert_eq!(order, vec![5, 4, 2, 6, 1, 3]);
    let weights: Vec<i32> = sorted.entries.iter().map(|e| e.total_weight()).collect();
    assert_eq!(weights, vec![10010, 9990, 9955, 9955, 9905, 9905]);
    assert!(srv_record(vec![]).sorted().entries.is_empty());
}

#[test]
fn naptr_record_sorted() {
    let make = |order, preference, replacement: &str| NaptrEntry {
        order,
        preference,
        ..entry(NaptrFlags::S, NaptrServices::SipD2t, replacement)
    };
    let record = NaptrRecord {
        entries: vec![make(50, 5, "a"), make(100, 5, "b"), make(50, 5, "c"), make(60, 50, "d")],
        domain: Domain::from("example.com"),
    };
    assert_eq!(record.as_slice().len(), 4);
    let sorted = record.sorted();
    let order: Vec<String> = sorted.entries.iter().map(|e| e.replacement.as_str().to_string()).collect();
    assert_eq!(order, vec!["d", "b", "a", "c"]);
    assert_eq!(sorted.domain, Domain::from("example.com"));
    assert_eq!(sorted.into_entries().len(), 4);
}

#[test]
fn addr_record_from_pair() {
    let record = AddrRecord::from((Domain::from("example.com"), vec![IpAddr::V4(203, 0, 113, 1)]));
    assert_eq!(record.domain, Domain::from("example.com"));
    assert_eq!(record.ip_addrs, vec![IpAddr::V4(203, 0, 113, 1)]);
}
