//! Locating SIP servers: a request URI is turned, step by step, into the
//! `(ip, port, transport)` targets that a user agent should try, in the
//! order that RFC 3263 prescribes.
//!
//! The resolution is lazy. A [`Lookup`] is a tree of resolvable nodes, and a
//! DNS query is made only when its answer is needed for the next target.
//! Every node is a small state machine: [`ResolvableExt::advance`] yields the
//! next target or names the DNS query it is waiting for, and
//! [`ResolvableExt::supply`] hands the answer over. Both are functions of the
//! node and the answer alone. [`ResolvableExt::resolve_next`] runs the
//! machine against a [`DnsClient`].

pub mod collections;
pub mod sip;
pub mod text;
pub mod sorting;
pub mod target;
pub mod records;
pub mod dns_client;
pub mod resolvables;
pub mod context;
pub mod lookup;
pub mod laws;

pub use sip::{Domain, Error, Host, IpAddr, Port, Scheme, Transport, Uri};
pub use target::Target;
pub use context::{Context, SupportedTransports};
pub use lookup::{Lookup, LookupModel};
pub use records::SrvDomain;
pub use resolvables::{ResolvableExt, ResolvableSpec};
pub use dns_client::{DnsAnswer, DnsAnswerView, DnsClient, DnsQuery, DnsQueryView};
