use vstd::prelude::*;
use crate::CoapError;

verus! {

/// A resolved peer or local address: the address family and bytes together
/// with the port, held as plain values so that the session logic can reason
/// about them.  Resolution itself (turning a name into such an address) is
/// left to the caller.
#[derive(Clone, Copy, Debug, PartialEq, Eq, Structural)]
pub enum IpAddress {
    V4(u8, u8, u8, u8),
    V6(u16, u16, u16, u16, u16, u16, u16, u16),
}

/// An address/port pair, the unit the transport adapter is bound and
/// connected with.
#[derive(Clone, Copy, Debug, PartialEq, Eq, Structural)]
pub struct SocketAddress {
    pub ip: IpAddress,
    pub port: u16,
}

/// The family-matched wildcard: an IPv6 peer is reached from `[::]:0`, an
/// IPv4 peer from `0.0.0.0:0`.
pub open spec fn wildcard_for(peer: SocketAddress) -> SocketAddress {
    match peer.ip {
        IpAddress::V4(_, _, _, _) => SocketAddress { ip: IpAddress::V4(0, 0, 0, 0), port: 0 },
        IpAddress::V6(..) => SocketAddress {
            ip: IpAddress::V6(0, 0, 0, 0, 0, 0, 0, 0),
            port: 0,
        },
    }
}

/// Picks the wildcard bind address whose family matches the peer's.
pub fn wildcard_bind(peer: &SocketAddress) -> (r: SocketAddress)
    ensures
        r == wildcard_for(*peer),
{
    match peer.ip {
        IpAddress::V4(_, _, _, _) => SocketAddress { ip: IpAddress::V4(0, 0, 0, 0), port: 0 },
        IpAddress::V6(..) => SocketAddress {
            ip: IpAddress::V6(0, 0, 0, 0, 0, 0, 0, 0),
            port: 0,
        },
    }
}

/// Picks the peer among a resolver's results: always the first entry, never
/// a later one.  Resolution that returned no entries is the `no-address`
/// error.
pub fn first_resolved(addrs: &Vec<SocketAddress>) -> (r: Result<SocketAddress, CoapError>)
    ensures
        addrs@.len() == 0 ==> (r matches Err(e) && e == CoapError::NoAddress),
        addrs@.len() > 0 ==> (r matches Ok(a) && a == addrs@[0]),
{
    if addrs.len() == 0 {
        Err(CoapError::NoAddress)
    } else {
        Ok(addrs[0])
    }
}

/// The transport adapter's bookkeeping: the verified picture of one connected
/// datagram endpoint — which peer it speaks to, where it is bound, and the
/// per-read timeout installed on it (`None` blocks indefinitely).  The kernel
/// socket itself, and the reads and writes on it, stand outside the library;
/// a caller keeps one of these beside the socket and the contracts below pin
/// how every operation changes it.
#[derive(Clone, Copy, Debug)]
pub struct UDPWrapper {
    pub peer: SocketAddress,
    pub bound: SocketAddress,
    pub read_timeout_ms: Option<u64>,
}

impl UDPWrapper {
    /// Adopts an endpoint already connected to `peer` from `bound`, with no
    /// read timeout installed.
    pub fn new(peer: SocketAddress, bound: SocketAddress) -> (r: UDPWrapper)
        ensures
            r.peer == peer,
            r.bound == bound,
            r.read_timeout_ms is None,
    {
        UDPWrapper { peer, bound, read_timeout_ms: None }
    }

    /// Records a fresh endpoint bound to `bind_address` and connected to
    /// `address`, with no read timeout installed yet.
    pub fn connect(address: &SocketAddress, bind_address: &SocketAddress) -> (r: UDPWrapper)
        ensures
            r.peer == *address,
            r.bound == *bind_address,
            r.read_timeout_ms is None,
    {
        UDPWrapper { peer: *address, bound: *bind_address, read_timeout_ms: None }
    }

    /// Installs a per-read timeout in milliseconds; `None` means a read may
    /// block indefinitely.
    pub fn set_read_timeout(&mut self, dur_ms: Option<u64>)
        ensures
            final(self).read_timeout_ms == dur_ms,
            final(self).peer == old(self).peer,
            final(self).bound == old(self).bound,
    {
        self.read_timeout_ms = dur_ms;
    }

    /// A duplicate handle onto the same endpoint: same peer, same binding,
    /// same installed timeout.
    pub fn try_clone(&self) -> (r: UDPWrapper)
        ensures
            r == *self,
    {
        UDPWrapper { peer: self.peer, bound: self.bound, read_timeout_ms: self.read_timeout_ms }
    }
}

} // verus!
