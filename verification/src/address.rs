//! Socket addresses held as plain numeric parts, so that contracts can speak
//! about them directly.

use vstd::prelude::*;

verus! {

/// An IP address of either family, held as its numeric parts.
#[derive(Clone, Copy, Debug, PartialEq, Eq, Structural)]
pub enum IpAddress {
    /// An IPv4 address, one octet per field.
    V4(u8, u8, u8, u8),
    /// An IPv6 address, one 16-bit segment per field.
    V6(u16, u16, u16, u16, u16, u16, u16, u16),
}

/// A socket address: an IP address together with a TCP port.
#[derive(Clone, Copy, Debug, PartialEq, Eq, Structural)]
pub struct SocketAddress {
    /// The IP part of the address.
    pub ip: IpAddress,
    /// The TCP port; `0` asks the OS for an unused port and never names a
    /// bound socket.
    pub port: u16,
}

impl SocketAddress {
    /// The IPv4 loopback address at the given port.
    pub fn loopback(port: u16) -> (r: Self)
        ensures
            r == (SocketAddress { ip: IpAddress::V4(127, 0, 0, 1), port }),
    {
        SocketAddress { ip: IpAddress::V4(127, 0, 0, 1), port }
    }
}

} // verus!
