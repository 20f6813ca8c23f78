//! A source of incoming connections: one bound, listening socket.

use vstd::prelude::*;
use crate::address::SocketAddress;

verus! {

/// One bound OS listening socket, identified by its resolved local address.
///
/// A value of this type stands for a socket that is already bound: the OS has
/// assigned it a concrete port, so the port is never `0` — even when the bind
/// was requested on port `0` to let the OS pick one. The socket itself is
/// owned by the unverified edge of the program, which constructs this value
/// from the resolved address the OS reported.
pub struct IncomingStream {
    addr: SocketAddress,
}

impl IncomingStream {
    /// A bound socket always has a concrete, nonzero port.
    #[verifier::type_invariant]
    spec fn inv(self) -> bool {
        self.addr.port != 0
    }

    /// The address this stream is bound to.
    pub closed spec fn spec_addr(&self) -> SocketAddress {
        self.addr
    }

    /// Record a socket that has been bound to `addr`. The port must be the
    /// concrete one the OS resolved, never the `0` placeholder.
    pub fn from_bound_addr(addr: SocketAddress) -> (r: Self)
        requires
            addr.port != 0,
        ensures
            r.spec_addr() == addr,
    {
        IncomingStream { addr }
    }

    /// The resolved local address of the bound socket. Its port is never `0`:
    /// binding to port `0` yields the OS-assigned port instead.
    pub fn local_addr(&self) -> (r: SocketAddress)
        ensures
            r == self.spec_addr(),
            r.port != 0,
    {
        proof {
            use_type_invariant(self);
        }
        self.addr
    }
}

} // verus!
