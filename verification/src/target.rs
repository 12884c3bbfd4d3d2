//! The result of a lookup.

use crate::sip::{IpAddr, Port, Transport};
use vstd::prelude::*;

verus! {

/// The `(ip, port, transport)` triple to try next.
#[derive(Debug, Clone, Copy, PartialEq, Eq, Structural)]
pub struct Target {
    pub ip_addr: IpAddr,
    pub port: Port,
    pub transport: Transport,
}

impl Target {
    /// The address and port number to connect to.
    pub fn socket_addr(&self) -> (r: (IpAddr, u16))
        ensures
            r == (self.ip_addr, self.port.0),
    {
        (self.ip_addr, self.port.0)
    }
}

impl From<(IpAddr, Port, Transport)> for Target {
    fn from(from: (IpAddr, Port, Transport)) -> (t: Target)
        ensures
            t == (Target { ip_addr: from.0, port: from.1, transport: from.2 }),
    {
        Target { ip_addr: from.0, port: from.1, transport: from.2 }
    }
}

impl vstd::std_specs::convert::FromSpecImpl<(IpAddr, Port, Transport)> for Target {
    open spec fn obeys_from_spec() -> bool {
        true
    }

    open spec fn from_spec(from: (IpAddr, Port, Transport)) -> Target {
        Target { ip_addr: from.0, port: from.1, transport: from.2 }
    }
}

} // verus!
