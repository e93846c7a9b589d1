//! A datagram transport over a UDP socket held in a shared, atomically
//! swappable slot, with the bookkeeping of the adapter verified.
pub mod addr;
pub mod udp;

pub use addr::SocketAddress;
pub use udp::UdpTransport;
