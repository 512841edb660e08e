//! Addresses, and what the worker exchanges with the sockets.
use sans_io_runtime::Buffer;
use vstd::prelude::*;

verus! {

/// An internet address. The bytes are read as one number, the first byte the most significant.
#[derive(Debug, Clone, Copy, PartialEq, Eq, Structural)]
pub enum IpAddr {
    V4(u32),
    V6(u128),
}

/// An internet address with a port.
#[allow(inconsistent_fields)]
#[derive(Debug, Clone, Copy, PartialEq, Eq, Structural)]
pub enum SocketAddr {
    V4 { ip: u32, port: u16 },
    V6 { ip: u128, port: u16, flowinfo: u32, scope_id: u32 },
}

impl SocketAddr {
    /// The address that stands for every IPv4 interface, with port `port`.
    pub open spec fn spec_any_v4(port: u16) -> SocketAddr {
        SocketAddr::V4 { ip: 0, port }
    }

    /// The address that stands for every IPv4 interface, with port `port`.
    pub fn any_v4(port: u16) -> (addr: SocketAddr)
        ensures
            addr == SocketAddr::spec_any_v4(port),
    {
        SocketAddr::V4 { ip: 0, port }
    }
}

/// Which of the tasks a socket belongs to.
#[derive(Debug, Clone, Copy, PartialEq, Eq, Structural)]
pub enum Owner {
    Sdn,
    MediaWebrtc,
}

/// What comes from the sockets.
pub enum BackendIncoming {
    /// The answer to a request to listen: the bound address and its slot.
    UdpListenResult { bind: SocketAddr, result: Result<(SocketAddr, usize), std::io::Error> },
    UdpPacket { slot: usize, from: SocketAddr, data: Buffer },
}

/// What goes to the sockets.
#[allow(inconsistent_fields)]
pub enum BackendOutgoing {
    UdpListen { addr: SocketAddr, reuse: bool },
    UdpUnlisten { slot: usize },
    UdpPacket { slot: usize, to: SocketAddr, data: Buffer },
    UdpPackets { slot: usize, to: Vec<SocketAddr>, data: Buffer },
}

/// What the network worker gets from its socket.
pub enum NetInput {
    UdpPacket(SocketAddr, Buffer),
}

/// What the network worker wants sent from its socket.
pub enum NetOutput {
    UdpPacket(SocketAddr, Buffer),
    UdpPackets(Vec<SocketAddr>, Buffer),
}

impl NetOutput {
    /// The request to the sockets that sends this from slot `slot`.
    pub open spec fn spec_from_slot(self, slot: usize) -> BackendOutgoing {
        match self {
            NetOutput::UdpPacket(to, data) => BackendOutgoing::UdpPacket { slot, to, data },
            NetOutput::UdpPackets(to, data) => BackendOutgoing::UdpPackets { slot, to, data },
        }
    }

    /// The request to the sockets that sends this from slot `slot`.
    pub fn from_slot(self, slot: usize) -> (out: BackendOutgoing)
        ensures
            out == self.spec_from_slot(slot),
    {
        match self {
            NetOutput::UdpPacket(to, data) => BackendOutgoing::UdpPacket { slot, to, data },
            NetOutput::UdpPackets(to, data) => BackendOutgoing::UdpPackets { slot, to, data },
        }
    }
}

} // verus!
