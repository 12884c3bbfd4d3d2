//! The DNS records that a [`DnsClient`](crate::DnsClient) hands back, and
//! the name under which SRV records are looked up.

pub mod addr_record;
pub mod naptr_record;
pub mod srv_record;

pub use addr_record::{AddrRecord, AddrRecordView};
pub use naptr_record::{
    NaptrEntry, NaptrEntryView, NaptrFlags, NaptrRecord, NaptrRecordView, NaptrServices,
};
pub use srv_record::{SrvEntry, SrvEntryView, SrvRecord, SrvRecordView};

use crate::sip::{secure_from_scheme, Domain, Error, Scheme, Transport};
use crate::text::{eq_ignore_ascii_case, split_at_label, split_label, without_prefix, strip_prefix};
use vstd::prelude::*;
use vstd::string::*;

verus! {

/// The name of an SRV record set: `_sip` or `_sips`, the wire protocol, and
/// the domain.
#[derive(Debug, Hash, Eq, PartialEq)]
pub struct SrvDomain {
    pub domain: Domain,
    pub protocol: Transport,
    pub secure: bool,
}

/// An [`SrvDomain`] with its domain as text.
pub struct SrvDomainView {
    pub domain: Seq<char>,
    pub protocol: Transport,
    pub secure: bool,
}

impl View for SrvDomain {
    type V = SrvDomainView;

    open spec fn view(&self) -> SrvDomainView {
        SrvDomainView { domain: self.domain@, protocol: self.protocol, secure: self.secure }
    }
}

impl Clone for SrvDomain {
    fn clone(&self) -> (r: Self)
        ensures
            r == *self,
    {
        SrvDomain { domain: self.domain.clone(), protocol: self.protocol, secure: self.secure }
    }
}

/// The transport that a service label and a wire protocol stand for together.
pub open spec fn effective_transport(secure: bool, protocol: Transport) -> Transport {
    match (secure, protocol) {
        (true, Transport::Tcp) => Transport::Tls,
        (true, Transport::Sctp) => Transport::TlsSctp,
        (true, Transport::Ws) => Transport::Wss,
        _ => protocol,
    }
}

/// `_sip._proto.` or `_sips._proto.`: what stands before the domain in an SRV name.
pub open spec fn srv_prefix(secure: bool, protocol: Transport) -> Seq<char> {
    (if secure {
        "_sips._"@
    } else {
        "_sip._"@
    }) + protocol.spec_label() + "."@
}

/// The transport that a token names, whatever the case of its letters.
pub open spec fn transport_of_token(token: Seq<char>) -> Option<Transport> {
    if eq_ignore_ascii_case(token, "UDP"@) {
        Some(Transport::Udp)
    } else if eq_ignore_ascii_case(token, "TCP"@) {
        Some(Transport::Tcp)
    } else if eq_ignore_ascii_case(token, "TLS"@) {
        Some(Transport::Tls)
    } else if eq_ignore_ascii_case(token, "SCTP"@) {
        Some(Transport::Sctp)
    } else if eq_ignore_ascii_case(token, "TLS-SCTP"@) {
        Some(Transport::TlsSctp)
    } else if eq_ignore_ascii_case(token, "WS"@) {
        Some(Transport::Ws)
    } else if eq_ignore_ascii_case(token, "WSS"@) {
        Some(Transport::Wss)
    } else {
        None
    }
}

/// Whether a scheme token is `sips` (`Some(true)`), `sip` (`Some(false)`) or neither.
pub open spec fn secure_of_scheme_token(token: Seq<char>) -> Option<bool> {
    if eq_ignore_ascii_case(token, "sip"@) {
        Some(false)
    } else if eq_ignore_ascii_case(token, "sips"@) {
        Some(true)
    } else {
        None
    }
}

/// The three parts of `_scheme._transport.domain`, or `None` where the text is not of this form.
pub open spec fn srv_name_frame(text: Seq<char>) -> Option<(Seq<char>, Seq<char>, Seq<char>)> {
    match split_label(text) {
        Some((scheme, rest)) => match split_label(rest) {
            Some((proto, domain)) => Some((scheme, proto, domain)),
            None => None,
        },
        None => None,
    }
}

/// What an SRV name says, or `None` where the text is no SRV name.
pub open spec fn parse_srv_name(text: Seq<char>) -> Option<SrvDomainView> {
    match srv_name_frame(text) {
        Some((scheme, proto, domain)) => match (
            secure_of_scheme_token(scheme),
            transport_of_token(proto),
        ) {
            (Some(secure), Some(transport)) => Some(
                SrvDomainView { domain, protocol: transport.spec_protocol(), secure },
            ),
            _ => None,
        },
        None => None,
    }
}

/// The kind of error that reading `text` as an SRV name ends in, where it fails.
pub open spec fn srv_name_fault(text: Seq<char>) -> Option<SrvNameFault> {
    match srv_name_frame(text) {
        None => Some(SrvNameFault::Frame),
        Some((scheme, proto, _)) => if secure_of_scheme_token(scheme) is None {
            Some(SrvNameFault::Scheme)
        } else if transport_of_token(proto) is None {
            Some(SrvNameFault::Transport)
        } else {
            None
        },
    }
}

/// Why a text is no SRV name.
pub enum SrvNameFault {
    /// It is not of the form `_scheme._transport.domain`.
    Frame,
    /// Its scheme is neither `sip` nor `sips`.
    Scheme,
    /// Its transport is none of the seven.
    Transport,
}

impl SrvDomainView {
    /// The transport that targets found under this name are reached by.
    pub open spec fn transport(self) -> Transport {
        effective_transport(self.secure, self.protocol)
    }

    /// The name as text: `_sip._proto.domain` or `_sips._proto.domain`.
    pub open spec fn format(self) -> Seq<char> {
        srv_prefix(self.secure, self.protocol) + self.domain
    }

    /// Whether the protocol is a wire protocol, as a name that was parsed always has it.
    pub open spec fn legal(self) -> bool {
        self.protocol == self.protocol.spec_protocol()
    }
}

/// Calls rsip's conversion of a transport token (`str::parse` into
/// `rsip::Transport`). It compares the token with the seven transport
/// names, ignoring the case of ASCII letters, and fails on any other token.
#[verifier::external_body]
pub(crate) fn transport_from_token(token: &str) -> (r: Option<Transport>)
    ensures
        r == transport_of_token(token@),
{
    match token.parse::<rsip::Transport>() {
        Ok(rsip::Transport::Udp) => Some(Transport::Udp),
        Ok(rsip::Transport::Tcp) => Some(Transport::Tcp),
        Ok(rsip::Transport::Tls) => Some(Transport::Tls),
        Ok(rsip::Transport::TlsSctp) => Some(Transport::TlsSctp),
        Ok(rsip::Transport::Sctp) => Some(Transport::Sctp),
        Ok(rsip::Transport::Ws) => Some(Transport::Ws),
        Ok(rsip::Transport::Wss) => Some(Transport::Wss),
        Err(_) => None,
    }
}

/// Calls rsip's conversion of a scheme token into `rsip::Scheme`. It gives
/// `Sip` or `Sips` for these two words, ignoring the case of ASCII letters,
/// and `Other` with the token itself for anything else.
#[verifier::external_body]
pub(crate) fn scheme_from_token(token: &str) -> (r: Option<Scheme>)
    ensures
        match r {
            Some(Scheme::Sip) => secure_of_scheme_token(token@) == Some(false),
            Some(Scheme::Sips) => secure_of_scheme_token(token@) == Some(true),
            Some(Scheme::Other(other)) => secure_of_scheme_token(token@) is None && other@
                == token@,
            None => secure_of_scheme_token(token@) is None,
        },
{
    match rsip::Scheme::try_from(rsip::common::uri::scheme::Tokenizer::from(token)) {
        Ok(rsip::Scheme::Sip) => Some(Scheme::Sip),
        Ok(rsip::Scheme::Sips) => Some(Scheme::Sips),
        Ok(rsip::Scheme::Other(other)) => Some(Scheme::Other(other)),
        Err(_) => None,
    }
}

impl SrvDomain {
    /// The transport that targets found under this name are reached by:
    /// TLS for `_sips` over TCP, TLS-SCTP for `_sips` over SCTP, WSS for
    /// `_sips` over WS, and the protocol itself otherwise.
    pub fn transport(&self) -> (t: Transport)
        ensures
            t == self@.transport(),
    {
        match (self.secure, self.protocol) {
            (true, Transport::Tcp) => Transport::Tls,
            (true, Transport::Sctp) => Transport::TlsSctp,
            (true, Transport::Ws) => Transport::Wss,
            _ => self.protocol,
        }
    }

    /// `_sip._proto.` or `_sips._proto.`
    pub fn prefix(secure: bool, protocol: Transport) -> (s: String)
        ensures
            s@ == srv_prefix(secure, protocol),
    {
        let mut s = String::from_str(
            if secure {
                "_sips._"
            } else {
                "_sip._"
            },
        );
        s.append(protocol.label());
        s.append(".");
        s
    }

    /// The name as it is looked up.
    pub fn to_string(&self) -> (s: String)
        ensures
            s@ == self@.format(),
    {
        let mut s = SrvDomain::prefix(self.secure, self.protocol);
        s.append(self.domain.as_str());
        s
    }

    /// Reads an SRV name. The text must be `_scheme._transport.domain`; the
    /// scheme must be `sip` or `sips` and the transport one of the seven
    /// transport names, in any case. A framing error is a `TokenizeError`, a
    /// scheme that is neither an `Unexpected` error, an unknown transport a
    /// `ParseError`.
    pub fn try_from(text: &str) -> (r: Result<SrvDomain, Error>)
        ensures
            match r {
                Ok(d) => parse_srv_name(text@) == Some(d@),
                Err(e) => match srv_name_fault(text@) {
                    Some(SrvNameFault::Frame) => e is TokenizeError,
                    Some(SrvNameFault::Scheme) => e is Unexpected,
                    Some(SrvNameFault::Transport) => e is ParseError,
                    None => false,
                },
            },
            r is Ok <==> parse_srv_name(text@) is Some,
    {
        let (scheme_token, rest) = match split_at_label(text) {
            Some(parts) => parts,
            None => {
                return Err(Error::TokenizeError(String::from_str("no scheme label")));
            },
        };
        let (transport_token, domain) = match split_at_label(rest) {
            Some(parts) => parts,
            None => {
                return Err(Error::TokenizeError(String::from_str("no transport label")));
            },
        };
        let secure = match scheme_from_token(scheme_token) {
            Some(scheme) => match secure_from_scheme(&scheme) {
                Ok(secure) => secure,
                Err(e) => {
                    return Err(e);
                },
            },
            None => {
                return Err(Error::Unexpected(String::from_str("no scheme")));
            },
        };
        match transport_from_token(transport_token) {
            Some(transport) => Ok(
                SrvDomain { domain: Domain::new(domain), protocol: transport.protocol(), secure },
            ),
            None => Err(Error::ParseError(String::from_str("unknown transport"))),
        }
    }

    /// Reads the SRV name that a domain spells.
    pub fn try_from_domain(from: &Domain) -> (r: Result<SrvDomain, Error>)
        ensures
            match r {
                Ok(d) => parse_srv_name(from@) == Some(d@),
                Err(_) => parse_srv_name(from@) is None,
            },
    {
        SrvDomain::try_from(from.as_str())
    }

    /// The name under which the SRV records of a NAPTR entry are found. The
    /// service decides: it gives `secure`, and its transport gives the
    /// protocol. The domain is the entry's replacement without the prefix
    /// that these two spell, where it starts with it. A service that stands
    /// for no transport gives an `Unexpected` error.
    pub fn try_from_naptr_entry(entry: &NaptrEntry) -> (r: Result<SrvDomain, Error>)
        ensures
            match r {
                Ok(d) => srv_domain_of_entry(entry@) == Some(d@),
                Err(e) => srv_domain_of_entry(entry@) is None && e is Unexpected,
            },
    {
        match entry.services.transport() {
            Some(transport) => {
                let secure = entry.services.secure();
                let protocol = transport.protocol();
                let prefix = SrvDomain::prefix(secure, protocol);
                let domain = without_prefix(entry.replacement.as_str(), prefix.as_str());
                Ok(SrvDomain { domain: Domain(domain), protocol, secure })
            },
            None => Err(
                Error::Unexpected(String::from_str("no SRV name for this NAPTR entry")),
            ),
        }
    }

    /// One SRV name per transport, in the order given, all of them without
    /// TLS. Where no transport is given: one per wire protocol, those that a
    /// secure transport can run over if `secure`.
    pub fn list_from(domain: Domain, secure: bool, available_transports: Vec<Transport>) -> (r: Vec<SrvDomain>)
        ensures
            r@.map_values(|d: SrvDomain| d@) == list_of_names(
                domain@,
                if available_transports@.len() > 0 {
                    available_transports@
                } else if secure {
                    Transport::spec_secure_protocols()
                } else {
                    Transport::spec_protocols()
                },
            ),
    {
        let transports = if available_transports.len() > 0 {
            available_transports
        } else if secure {
            Transport::secure_protocols()
        } else {
            Transport::protocols()
        };
        let mut r: Vec<SrvDomain> = Vec::new();
        let mut i: usize = 0;
        while i < transports.len()
            invariant
                i <= transports.len(),
                r@.len() == i,
                forall|j: int|
                    0 <= j < i ==> (#[trigger] r@[j])@ == (SrvDomainView {
                        domain: domain@,
                        protocol: transports@[j],
                        secure: false,
                    }),
            decreases transports.len() - i,
        {
            r.push(SrvDomain { domain: domain.clone(), protocol: transports[i], secure: false });
            i += 1;
        }
        assert(r@.map_values(|d: SrvDomain| d@) =~= list_of_names(domain@, transports@));
        r
    }
}

/// One insecure SRV name for `domain` per transport of `transports`.
pub open spec fn list_of_names(domain: Seq<char>, transports: Seq<Transport>) -> Seq<
    SrvDomainView,
> {
    transports.map_values(|t: Transport| SrvDomainView { domain, protocol: t, secure: false })
}

/// The SRV name of a NAPTR entry, or `None` where its service stands for no transport.
pub open spec fn srv_domain_of_entry(entry: NaptrEntryView) -> Option<SrvDomainView> {
    match entry.services.spec_transport() {
        Some(transport) => {
            let secure = entry.services.spec_secure();
            let protocol = transport.spec_protocol();
            Some(
                SrvDomainView {
                    domain: strip_prefix(entry.replacement, srv_prefix(secure, protocol)),
                    protocol,
                    secure,
                },
            )
        },
        None => None,
    }
}

impl From<(Domain, Transport)> for SrvDomain {
    fn from(tuple: (Domain, Transport)) -> (d: SrvDomain)
        ensures
            d.domain == tuple.0,
            d.protocol == tuple.1.spec_protocol(),
            !d.secure,
    {
        SrvDomain { domain: tuple.0, protocol: tuple.1.protocol(), secure: false }
    }
}

impl vstd::std_specs::convert::FromSpecImpl<(Domain, Transport)> for SrvDomain {
    open spec fn obeys_from_spec() -> bool {
        true
    }

    open spec fn from_spec(tuple: (Domain, Transport)) -> SrvDomain {
        SrvDomain { domain: tuple.0, protocol: tuple.1.spec_protocol(), secure: false }
    }
}

} // verus!
