use vstd::prelude::*;

verus! {

/// An IP address held as plain integers.
#[derive(Clone, Copy, Debug, PartialEq, Eq, Structural)]
pub enum IpAddress {
    V4(u32),
    V6(u128),
}

/// A transport endpoint: an IP address and a port.
#[derive(Clone, Copy, Debug, PartialEq, Eq, Structural)]
pub struct PeerAddr {
    pub ip: IpAddress,
    pub port: u16,
}

/// The UDP endpoint a client is expected to send from: the IP address of its
/// TCP peer with the port one above the server's UDP port.
pub open spec fn expected_udp_peer(tcp_peer: PeerAddr, udp_port: u16) -> PeerAddr {
    PeerAddr { ip: tcp_peer.ip, port: (udp_port + 1) as u16 }
}

/// Derives the UDP endpoint correlated with a client from its TCP peer.
pub fn udp_peer_for(tcp_peer: PeerAddr, udp_port: u16) -> (r: PeerAddr)
    requires
        udp_port < u16::MAX,
    ensures
        r == expected_udp_peer(tcp_peer, udp_port),
        r.ip == tcp_peer.ip,
        r.port == udp_port + 1,
{
    PeerAddr { ip: tcp_peer.ip, port: udp_port + 1 }
}

} // verus!
