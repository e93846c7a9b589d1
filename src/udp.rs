use std::sync::Arc;

use arc_swap::ArcSwap;
use tokio::net::UdpSocket;
use vstd::prelude::*;

use crate::addr::SocketAddress;

verus! {

#[verifier::external_type_specification]
#[verifier::external_body]
pub struct ExUdpSocket(UdpSocket);

#[verifier::external_type_specification]
#[verifier::external_body]
pub struct ExIoError(std::io::Error);

/// The shared slot that holds the live socket: an arc_swap::ArcSwap, whose
/// content can be replaced atomically while readers go on loading from it.
/// Verus cannot take a declaration of that type (its default strategy lives in
/// a private module), so the slot is opaque and reached only through the two
/// methods below.
#[verifier::external_body]
pub struct SocketSlot {
    inner: ArcSwap<UdpSocket>,
}

impl SocketSlot {
    /// Relies on arc_swap::ArcSwapAny::from_pointee: a new slot whose current
    /// socket is `io`.
    #[verifier::external_body]
    fn new(io: UdpSocket) -> (r: SocketSlot) {
        SocketSlot { inner: ArcSwap::from_pointee(io) }
    }

    /// Relies on arc_swap::ArcSwapAny::load_full: the socket that the slot
    /// holds at the moment of the call.
    #[verifier::external_body]
    fn load(&self) -> (r: Arc<UdpSocket>) {
        self.inner.load_full()
    }
}

/// Relies on tokio::net::UdpSocket::local_addr: asks the operating system for
/// the address the socket is bound to, and keeps its port.
#[verifier::external_body]
fn query_local_port(sock: &UdpSocket) -> (r: Result<u16, std::io::Error>) {
    sock.local_addr().map(|a| a.port())
}

/// A datagram transport over a UDP socket.
///
/// The socket sits in a shared slot that can be swapped atomically; clones of
/// a transport share that slot. The address the socket was bound to is cached
/// when the transport is made and never changes afterwards.
pub struct UdpTransport {
    io: Arc<SocketSlot>,
    bind: SocketAddress,
}

/// What `local_port` makes of the answer to a local-address query: the port
/// when the query succeeded, nothing when it failed.
pub open spec fn port_of_query(q: Result<u16, std::io::Error>) -> Option<u16> {
    match q {
        Ok(p) => Some(p),
        Err(_) => None,
    }
}

/// Turns the answer to a local-address query into an optional port: a failed
/// query is reported as an unavailable port, not as an error.
pub fn port_from_query(q: Result<u16, std::io::Error>) -> (r: Option<u16>)
    ensures
        r == port_of_query(q),
{
    match q {
        Ok(p) => Some(p),
        Err(_) => None,
    }
}

impl UdpTransport {
    /// The address cached when the transport was made.
    pub closed spec fn bound_address(self) -> SocketAddress {
        self.bind
    }

    /// The shared slot that holds the live socket.
    pub closed spec fn slot(self) -> Arc<SocketSlot> {
        self.io
    }

    /// Wraps an open socket together with the answer of the operating system
    /// to the query for its local address. A failed query is returned as the
    /// error; otherwise the address becomes the transport's bound address.
    pub fn adopt(io: UdpSocket, bound: Result<SocketAddress, std::io::Error>) -> (r: Result<
        UdpTransport,
        std::io::Error,
    >)
        ensures
            match bound {
                Ok(a) => r is Ok && r->Ok_0.bound_address() == a,
                Err(e) => r == Err::<UdpTransport, std::io::Error>(e),
            },
    {
        match bound {
            Ok(bind) => {
                let io = Arc::new(SocketSlot::new(io));
                Ok(UdpTransport { io, bind })
            },
            Err(e) => Err(e),
        }
    }

    /// The address the socket was bound to, as cached at construction.
    pub fn local_addr(&self) -> (r: SocketAddress)
        ensures
            r == self.bound_address(),
    {
        self.bind
    }

    /// A new handle on the same transport: it shares the socket slot, so a
    /// socket replaced in the slot is seen through every handle, and it carries the
    /// same bound address, so that the two handles can stand for each other
    /// in every operation. Never fails.
    pub fn clone(&self) -> (r: Result<UdpTransport, std::io::Error>)
        ensures
            r is Ok,
            r->Ok_0.slot() == self.slot(),
            r->Ok_0.bound_address() == self.bound_address(),
            r->Ok_0 == *self,
    {
        Ok(UdpTransport { io: Arc::clone(&self.io), bind: self.bind })
    }

    /// The socket that the slot holds now. Each call reads the slot afresh,
    /// so a socket replaced in the slot since the last call is the one returned.
    pub fn socket(&self) -> Arc<UdpSocket> {
        self.io.load()
    }

    /// The port the live socket is bound to, or `None` when the operating
    /// system cannot report it at the time of the call.
    pub fn local_port(&self) -> Option<u16> {
        let sock = self.io.load();
        port_from_query(query_local_port(&sock))
    }
}

} // verus!
