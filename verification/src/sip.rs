//! The SIP values that the resolution works on: transports, ports, hosts,
//! the parts of a URI that matter for locating a server, and the error type.

use vstd::prelude::*;
use vstd::string::*;

verus! {

/// A SIP transport.
#[derive(Debug, Clone, Copy, PartialEq, Eq, Hash, Structural)]
pub enum Transport {
    Udp,
    Tcp,
    Tls,
    TlsSctp,
    Sctp,
    Ws,
    Wss,
}

impl Transport {
    /// Every transport, in the order in which they are tried.
    pub open spec fn spec_all() -> Seq<Transport> {
        seq![
            Transport::Udp,
            Transport::Tcp,
            Transport::Tls,
            Transport::Sctp,
            Transport::TlsSctp,
            Transport::Ws,
            Transport::Wss,
        ]
    }

    /// The transports that run over TLS.
    pub open spec fn spec_secure_transports() -> Seq<Transport> {
        seq![Transport::Tls, Transport::TlsSctp, Transport::Wss]
    }

    /// The wire protocols, as they appear in the `_proto` label of an SRV name.
    pub open spec fn spec_protocols() -> Seq<Transport> {
        seq![Transport::Udp, Transport::Tcp, Transport::Sctp, Transport::Ws]
    }

    /// The wire protocols that a secure transport can run over.
    pub open spec fn spec_secure_protocols() -> Seq<Transport> {
        seq![Transport::Tcp, Transport::Sctp, Transport::Ws]
    }

    pub open spec fn spec_is_secure(self) -> bool {
        self == Transport::Tls || self == Transport::TlsSctp || self == Transport::Wss
    }

    /// The wire protocol under a transport: the transport itself, with TLS taken off.
    pub open spec fn spec_protocol(self) -> Transport {
        match self {
            Transport::Tls => Transport::Tcp,
            Transport::TlsSctp => Transport::Sctp,
            Transport::Wss => Transport::Ws,
            _ => self,
        }
    }

    pub open spec fn spec_default_port(self) -> Port {
        match self {
            Transport::Udp => Port(5060),
            Transport::Tcp => Port(5060),
            Transport::Sctp => Port(5060),
            Transport::TlsSctp => Port(5061),
            Transport::Tls => Port(5061),
            Transport::Ws => Port(80),
            Transport::Wss => Port(443),
        }
    }

    /// The transport's name in lower case, as it stands in an SRV name.
    pub open spec fn spec_label(self) -> Seq<char> {
        match self {
            Transport::Udp => "udp"@,
            Transport::Tcp => "tcp"@,
            Transport::Tls => "tls"@,
            Transport::Sctp => "sctp"@,
            Transport::TlsSctp => "tls-sctp"@,
            Transport::Ws => "ws"@,
            Transport::Wss => "wss"@,
        }
    }

    pub fn all() -> (r: Vec<Transport>)
        ensures
            r@ == Transport::spec_all(),
    {
        let r = vec![
            Transport::Udp,
            Transport::Tcp,
            Transport::Tls,
            Transport::Sctp,
            Transport::TlsSctp,
            Transport::Ws,
            Transport::Wss,
        ];
        assert(r@ =~= Transport::spec_all());
        r
    }

    pub fn secure_transports() -> (r: Vec<Transport>)
        ensures
            r@ == Transport::spec_secure_transports(),
            forall|t: Transport| r@.contains(t) <==> t.spec_is_secure(),
    {
        let r = vec![Transport::Tls, Transport::TlsSctp, Transport::Wss];
        assert(r@ =~= Transport::spec_secure_transports());
        assert forall|t: Transport| r@.contains(t) <==> t.spec_is_secure() by {
            if t.spec_is_secure() {
                assert(r@[0] == Transport::Tls && r@[1] == Transport::TlsSctp && r@[2]
                    == Transport::Wss);
            }
        }
        r
    }

    pub fn protocols() -> (r: Vec<Transport>)
        ensures
            r@ == Transport::spec_protocols(),
    {
        let r = vec![Transport::Udp, Transport::Tcp, Transport::Sctp, Transport::Ws];
        assert(r@ =~= Transport::spec_protocols());
        r
    }

    pub fn secure_protocols() -> (r: Vec<Transport>)
        ensures
            r@ == Transport::spec_secure_protocols(),
    {
        let r = vec![Transport::Tcp, Transport::Sctp, Transport::Ws];
        assert(r@ =~= Transport::spec_secure_protocols());
        r
    }

    pub fn is_secure(&self) -> (b: bool)
        ensures
            b == self.spec_is_secure(),
    {
        match self {
            Transport::Tls => true,
            Transport::TlsSctp => true,
            Transport::Wss => true,
            _ => false,
        }
    }

    pub fn protocol(&self) -> (p: Transport)
        ensures
            p == self.spec_protocol(),
    {
        match self {
            Transport::Tls => Transport::Tcp,
            Transport::TlsSctp => Transport::Sctp,
            Transport::Wss => Transport::Ws,
            _ => *self,
        }
    }

    pub fn default_port(&self) -> (p: Port)
        ensures
            p == self.spec_default_port(),
    {
        match self {
            Transport::Udp => Port(5060),
            Transport::Tcp => Port(5060),
            Transport::Sctp => Port(5060),
            Transport::TlsSctp => Port(5061),
            Transport::Tls => Port(5061),
            Transport::Ws => Port(80),
            Transport::Wss => Port(443),
        }
    }

    pub fn label(&self) -> (s: &'static str)
        ensures
            s@ == self.spec_label(),
    {
        match self {
            Transport::Udp => "udp",
            Transport::Tcp => "tcp",
            Transport::Tls => "tls",
            Transport::Sctp => "sctp",
            Transport::TlsSctp => "tls-sctp",
            Transport::Ws => "ws",
            Transport::Wss => "wss",
        }
    }
}

/// Whether `t` occurs in `list`.
pub fn contains_transport(list: &Vec<Transport>, t: Transport) -> (b: bool)
    ensures
        b == list@.contains(t),
{
    let mut i: usize = 0;
    while i < list.len()
        invariant
            i <= list.len(),
            forall|j: int| 0 <= j < i ==> list@[j] != t,
        decreases list.len() - i,
    {
        if list[i] == t {
            return true;
        }
        i += 1;
    }
    false
}

/// A port number.
#[derive(Debug, Clone, Copy, PartialEq, Eq, Hash, Structural)]
pub struct Port(pub u16);

impl Port {
    pub fn new(value: u16) -> (p: Port)
        ensures
            p == Port(value),
    {
        Port(value)
    }

    pub fn value(&self) -> (v: u16)
        ensures
            v == self.0,
    {
        self.0
    }
}

impl From<u16> for Port {
    fn from(value: u16) -> (p: Port)
        ensures
            p == Port(value),
    {
        Port(value)
    }
}

impl vstd::std_specs::convert::FromSpecImpl<u16> for Port {
    open spec fn obeys_from_spec() -> bool {
        true
    }

    open spec fn from_spec(value: u16) -> Port {
        Port(value)
    }
}

/// A domain name. Its view is the text.
#[derive(Debug, PartialEq, Eq, Hash)]
pub struct Domain(pub String);

impl View for Domain {
    type V = Seq<char>;

    open spec fn view(&self) -> Seq<char> {
        self.0@
    }
}

impl Clone for Domain {
    fn clone(&self) -> (r: Self)
        ensures
            r == *self,
    {
        Domain(self.0.clone())
    }
}

impl Domain {
    pub fn new(text: &str) -> (d: Domain)
        ensures
            d@ == text@,
    {
        Domain(String::from_str(text))
    }

    pub fn as_str(&self) -> (s: &str)
        ensures
            s@ == self@,
    {
        self.0.as_str()
    }
}

impl<'a> From<&'a str> for Domain {
    fn from(text: &'a str) -> (d: Domain)
        ensures
            d@ == text@,
    {
        Domain::new(text)
    }
}

impl<'a> vstd::std_specs::convert::FromSpecImpl<&'a str> for Domain {
    /// A text fixes the view of the domain made from it, not the value:
    /// [`Domain::new`] states what `from` returns.
    open spec fn obeys_from_spec() -> bool {
        false
    }

    open spec fn from_spec(text: &'a str) -> Domain {
        arbitrary()
    }
}

/// An IP address, version 4 by its four bytes or version 6 by its eight groups.
#[derive(Debug, Clone, Copy, PartialEq, Eq, Hash, Structural)]
pub enum IpAddr {
    V4(u8, u8, u8, u8),
    V6(u16, u16, u16, u16, u16, u16, u16, u16),
}

/// The host part of a URI.
#[derive(Debug, Clone, PartialEq, Eq)]
pub enum Host {
    Domain(Domain),
    IpAddr(IpAddr),
}

/// The scheme of a URI.
#[derive(Debug, Clone, PartialEq, Eq)]
pub enum Scheme {
    Sip,
    Sips,
    Other(String),
}

/// What a lookup reads of a request URI.
#[derive(Debug, Clone, PartialEq, Eq)]
pub struct Uri {
    pub scheme: Option<Scheme>,
    pub host: Host,
    pub port: Option<Port>,
    pub transport: Option<Transport>,
}

/// What can go wrong outside the resolution itself.
#[derive(Debug, Clone, PartialEq, Eq)]
pub enum Error {
    MissingHeader(String),
    InvalidParam(String),
    ParseError(String),
    TokenizeError(String),
    Utf8Error(String),
    Unexpected(String),
}

/// Whether a scheme asks for a secure transport; an error for any scheme but `sip` and `sips`.
pub fn secure_from_scheme(scheme: &Scheme) -> (r: Result<bool, Error>)
    ensures
        match *scheme {
            Scheme::Sip => r == Ok::<bool, Error>(false),
            Scheme::Sips => r == Ok::<bool, Error>(true),
            Scheme::Other(_) => r is Err && r->Err_0 is Unexpected,
        },
{
    match scheme {
        Scheme::Sip => Ok(false),
        Scheme::Sips => Ok(true),
        Scheme::Other(_) => Err(Error::Unexpected(String::from_str("can't resolve this scheme"))),
    }
}

} // verus!
