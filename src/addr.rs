use vstd::prelude::*;

verus! {

/// A resolved socket address: an IP address with its port, held as plain values.
#[derive(Clone, Copy, Debug, PartialEq, Eq, Structural)]
#[allow(inconsistent_fields)]
pub enum SocketAddress {
    /// An IPv4 address, its four octets read as one big-endian integer, and
    /// a port.
    V4 { ip: u32, port: u16 },
    /// An IPv6 address, its sixteen octets read as one big-endian integer, a
    /// port, the flow label and the scope identifier.
    V6 { ip: u128, port: u16, flowinfo: u32, scope_id: u32 },
}

impl SocketAddress {
    /// The port component of the address.
    pub open spec fn port_spec(self) -> u16 {
        match self {
            SocketAddress::V4 { port, .. } => port,
            SocketAddress::V6 { port, .. } => port,
        }
    }

    /// Returns the port component of the address.
    pub fn port(&self) -> (r: u16)
        ensures
            r == self.port_spec(),
    {
        match self {
            SocketAddress::V4 { port, .. } => *port,
            SocketAddress::V6 { port, .. } => *port,
        }
    }

    /// Whether the address is an IPv4 address.
    pub fn is_ipv4(&self) -> (r: bool)
        ensures
            r == (self is V4),
    {
        match self {
            SocketAddress::V4 { .. } => true,
            SocketAddress::V6 { .. } => false,
        }
    }
}

} // verus!
