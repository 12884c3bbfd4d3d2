//! What a lookup starts from.

use crate::dns_client::DnsClient;
use crate::sip::{
    contains_transport, secure_from_scheme, Error, Host, Port, Scheme, Transport, Uri,
};
use vstd::prelude::*;
use vstd::string::*;

verus! {

/// The transports that the caller can use, in the order in which they are to be tried.
#[derive(Debug, Clone)]
pub struct SupportedTransports(Vec<Transport>);

impl View for SupportedTransports {
    type V = Seq<Transport>;

    closed spec fn view(&self) -> Seq<Transport> {
        self.0@
    }
}

impl SupportedTransports {
    /// Every transport.
    pub fn any() -> (r: Self)
        ensures
            r@ == Transport::spec_all(),
    {
        SupportedTransports(Transport::all())
    }

    /// The given transports, in the given order.
    pub fn only(transports: Vec<Transport>) -> (r: Self)
        ensures
            r@ == transports@,
    {
        SupportedTransports(transports)
    }

    pub fn all(&self) -> (r: &Vec<Transport>)
        ensures
            r@ == self@,
    {
        &self.0
    }

    pub fn into_vec(self) -> (r: Vec<Transport>)
        ensures
            r@ == self@,
    {
        self.0
    }
}

impl Default for SupportedTransports {
    fn default() -> (r: Self)
        ensures
            r@ == Transport::spec_all(),
    {
        SupportedTransports::any()
    }
}

/// The transports of `list` that occur in `allowed`, in the order of `list`.
pub open spec fn only_those(list: Seq<Transport>, allowed: Seq<Transport>) -> Seq<Transport>
    decreases list.len(),
{
    if list.len() == 0 {
        Seq::empty()
    } else {
        let before = only_those(list.drop_last(), allowed);
        if allowed.contains(list.last()) {
            before.push(list.last())
        } else {
            before
        }
    }
}

/// Whatever is kept is allowed, and was in the list.
pub proof fn lemma_only_those(list: Seq<Transport>, allowed: Seq<Transport>)
    ensures
        forall|t: Transport| #[trigger]
            only_those(list, allowed).contains(t) <==> (list.contains(t) && allowed.contains(t)),
    decreases list.len(),
{
    let kept = only_those(list, allowed);
    if list.len() > 0 {
        let before = only_those(list.drop_last(), allowed);
        lemma_only_those(list.drop_last(), allowed);
        assert forall|t: Transport| #[trigger]
            kept.contains(t) <==> (list.contains(t) && allowed.contains(t)) by {
            if kept.contains(t) {
                let i = choose|i: int| 0 <= i < kept.len() && kept[i] == t;
                if allowed.contains(list.last()) && i == kept.len() - 1 {
                    assert(list[list.len() - 1] == t);
                } else {
                    assert(before[i] == t);
                    assert(before.contains(t));
                    let j = choose|j: int|
                        0 <= j < list.drop_last().len() && list.drop_last()[j] == t;
                    assert(list[j] == t);
                }
            }
            if list.contains(t) && allowed.contains(t) {
                let j = choose|j: int| 0 <= j < list.len() && list[j] == t;
                if j == list.len() - 1 {
                    assert(kept[kept.len() - 1] == t);
                } else {
                    assert(list.drop_last()[j] == t);
                    assert(before.contains(t));
                    let i = choose|i: int| 0 <= i < before.len() && before[i] == t;
                    assert(kept[i] == t);
                }
            }
        }
    }
}

/// The transports of `list` that occur in `allowed`, in the order of `list`.
pub fn retain_listed(list: &Vec<Transport>, allowed: &Vec<Transport>) -> (r: Vec<Transport>)
    ensures
        r@ == only_those(list@, allowed@),
{
    let mut r: Vec<Transport> = Vec::new();
    let mut i: usize = 0;
    assert(list@.take(0) =~= Seq::<Transport>::empty());
    while i < list.len()
        invariant
            i <= list.len(),
            r@ == only_those(list@.take(i as int), allowed@),
        decreases list.len() - i,
    {
        assert(list@.take(i + 1).drop_last() =~= list@.take(i as int));
        if contains_transport(allowed, list[i]) {
            r.push(list[i]);
        }
        i += 1;
    }
    assert(list@.take(i as int) =~= list@);
    r
}

/// The transport of a lookup: the one that was asked for, else TLS for a
/// secure lookup and UDP for any other.
pub open spec fn default_transport_of(secure: bool, transport: Option<Transport>) -> Transport {
    match transport {
        Some(transport) => transport,
        None => if secure {
            Transport::Tls
        } else {
            Transport::Udp
        },
    }
}

/// The transports that a lookup may use: of a secure lookup only the secure ones.
pub open spec fn available_transports_of(secure: bool, supported: Seq<Transport>) -> Seq<
    Transport,
> {
    if secure {
        only_those(supported, Transport::spec_secure_transports())
    } else {
        supported
    }
}

/// The wire protocols among the transports that a lookup may use.
pub open spec fn available_protocols_of(secure: bool, supported: Seq<Transport>) -> Seq<Transport> {
    if secure {
        only_those(supported, Transport::spec_secure_protocols())
    } else {
        only_those(supported, Transport::spec_protocols())
    }
}

/// Whether a secure scheme and an insecure transport were asked for together.
pub open spec fn mismatched(secure: bool, transport: Option<Transport>) -> bool {
    secure && transport is Some && !transport->0.spec_is_secure()
}

/// Whether a URI asks for a secure transport: it does where its scheme is
/// `sips`. `None` where the scheme is neither `sip` nor `sips`.
pub open spec fn secure_of_uri(scheme: Option<Scheme>) -> Option<bool> {
    match scheme {
        None => Some(false),
        Some(Scheme::Sip) => Some(false),
        Some(Scheme::Sips) => Some(true),
        Some(Scheme::Other(_)) => None,
    }
}

/// What a lookup is made from. The fields may be set by hand, or taken from
/// a URI with [`Context::initialize_from`].
#[derive(Debug, Clone)]
pub struct Context<C: DnsClient> {
    pub secure: bool,
    pub host: Host,
    pub port: Option<Port>,
    pub transport: Option<Transport>,
    pub dns_client: C,
    pub supported_transports: SupportedTransports,
}

impl<C: DnsClient> Context<C> {
    pub open spec fn spec_default_transport(&self) -> Transport {
        default_transport_of(self.secure, self.transport)
    }

    pub open spec fn spec_available_transports(&self) -> Seq<Transport> {
        available_transports_of(self.secure, self.supported_transports@)
    }

    /// Whether the context asks for nothing that contradicts itself: a
    /// secure context names no insecure transport.
    pub open spec fn consistent(&self) -> bool {
        !mismatched(self.secure, self.transport)
    }

    /// The context of a URI. The scheme decides whether it is secure; host,
    /// port and transport are those of the URI. A scheme other than `sip`
    /// and `sips`, and a secure scheme together with an insecure transport,
    /// are refused with an `Unexpected` error.
    pub fn initialize_from(uri: Uri, dns_client: C, supported_transports: SupportedTransports) -> (r:
        Result<Self, Error>)
        ensures
            r is Ok <==> (secure_of_uri(uri.scheme) is Some && !mismatched(
                secure_of_uri(uri.scheme)->0,
                uri.transport,
            )),
            match r {
                Ok(ctx) => {
                    &&& secure_of_uri(uri.scheme) == Some(ctx.secure)
                    &&& ctx.host == uri.host
                    &&& ctx.port == uri.port
                    &&& ctx.transport == uri.transport
                    &&& ctx.dns_client == dns_client
                    &&& ctx.supported_transports == supported_transports
                    &&& ctx.consistent()
                },
                Err(e) => e is Unexpected,
            },
    {
        let secure = match &uri.scheme {
            Some(scheme) => match secure_from_scheme(scheme) {
                Ok(secure) => secure,
                Err(e) => {
                    return Err(e);
                },
            },
            None => false,
        };
        if secure {
            match uri.transport {
                Some(transport) => {
                    if !transport.is_secure() {
                        return Err(
                            Error::Unexpected(
                                String::from_str(
                                    "can't build context with secure scheme and insecure transport",
                                ),
                            ),
                        );
                    }
                },
                None => {},
            }
        }
        Ok(
            Context {
                secure,
                host: uri.host,
                port: uri.port,
                transport: uri.transport,
                dns_client,
                supported_transports,
            },
        )
    }

    /// The transport that was asked for, else TLS for a secure context and UDP for any other.
    pub fn default_transport(&self) -> (t: Transport)
        ensures
            t == self.spec_default_transport(),
            self.transport is None ==> t == (if self.secure {
                Transport::Tls
            } else {
                Transport::Udp
            }),
    {
        match self.transport {
            Some(transport) => transport,
            None => if self.secure {
                Transport::Tls
            } else {
                Transport::Udp
            },
        }
    }

    /// The supported transports; of a secure context only the secure ones.
    pub fn available_transports(&self) -> (r: Vec<Transport>)
        ensures
            r@ == self.spec_available_transports(),
    {
        if self.secure {
            retain_listed(self.supported_transports.all(), &Transport::secure_transports())
        } else {
            let r = self.supported_transports.all().clone();
            assert(r@ =~= self.supported_transports@);
            r
        }
    }

    /// The wire protocols among the supported transports; of a secure
    /// context only those that a secure transport can run over.
    pub fn available_protocols(&self) -> (r: Vec<Transport>)
        ensures
            r@ == available_protocols_of(self.secure, self.supported_transports@),
    {
        if self.secure {
            retain_listed(self.supported_transports.all(), &Transport::secure_protocols())
        } else {
            retain_listed(self.supported_transports.all(), &Transport::protocols())
        }
    }
}

} // verus!
