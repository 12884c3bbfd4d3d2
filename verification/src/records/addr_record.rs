//! Address records.

use crate::sip::{Domain, IpAddr};
use vstd::prelude::*;

verus! {

/// The addresses of a domain, in the order of the DNS answer.
#[derive(Debug, Clone)]
pub struct AddrRecord {
    pub domain: Domain,
    pub ip_addrs: Vec<IpAddr>,
}

/// An [`AddrRecord`] as plain values.
pub struct AddrRecordView {
    pub domain: Seq<char>,
    pub ip_addrs: Seq<IpAddr>,
}

impl View for AddrRecord {
    type V = AddrRecordView;

    open spec fn view(&self) -> AddrRecordView {
        AddrRecordView { domain: self.domain@, ip_addrs: self.ip_addrs@ }
    }
}

impl From<(Domain, Vec<IpAddr>)> for AddrRecord {
    fn from(tuple: (Domain, Vec<IpAddr>)) -> (r: AddrRecord)
        ensures
            r.domain == tuple.0,
            r.ip_addrs == tuple.1,
    {
        AddrRecord { domain: tuple.0, ip_addrs: tuple.1 }
    }
}

impl vstd::std_specs::convert::FromSpecImpl<(Domain, Vec<IpAddr>)> for AddrRecord {
    open spec fn obeys_from_spec() -> bool {
        true
    }

    open spec fn from_spec(tuple: (Domain, Vec<IpAddr>)) -> AddrRecord {
        AddrRecord { domain: tuple.0, ip_addrs: tuple.1 }
    }
}

} // verus!
