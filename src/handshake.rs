use vstd::prelude::*;
use crate::auth::{User, UserAuth};
use crate::config::Config;
use crate::net::{expected_udp_peer, udp_peer_for, PeerAddr};
use crate::packet::Packet;
use crate::registry::Client;
use crate::server::Server;

verus! {

/// The reason a client is given when its auth token is not accepted.
pub open spec fn auth_failure_reason() -> Seq<char> {
    "Failed to authenticate!"@
}

/// Where the handshake of one connection stands.
#[derive(Clone, Debug)]
pub enum HandshakeState {
    /// Waiting for the client's version.
    AwaitVersion,
    /// Waiting for the client's auth token.
    AwaitAuth,
    /// The token is with the identity service; `confirm_id` is to be confirmed
    /// once it is accepted.
    Authenticating { confirm_id: u32 },
    /// The client was told to load the map; waiting for its confirmation.
    AwaitMapLoaded { steam_id: u64, user: User, udp_addr: PeerAddr },
    /// The client was handed over for admission.
    Ready,
    /// The connection is to be closed.
    Failed,
}

/// What happened on the connection since the last step.
#[derive(Debug)]
pub enum HandshakeEvent {
    /// A packet was read.
    Received(Packet),
    /// The identity service accepted the token.
    Authenticated(UserAuth),
    /// The identity service refused the token or could not be asked.
    AuthFailed,
    /// Reading, writing or decoding failed.
    TransportFailed,
}

/// What the connection's driver does next.
#[derive(Debug)]
pub enum HandshakeAction {
    /// Write these packets in order, then read the next packet. A failed
    /// write is a `TransportFailed` event.
    Send(Vec<Packet>),
    /// Ask the identity service about this auth token.
    Resolve(String),
    /// The handshake is complete: hand this client over for admission.
    Admit(Client),
    /// Write these packets in order, if possible, and close the connection.
    Close(Vec<Packet>),
}

/// The handshake of one connection, with the settings it announces.
#[derive(Debug)]
pub struct Handshake {
    pub state: HandshakeState,
    pub tcp_peer: PeerAddr,
    pub udp_port: u16,
    pub http_port: u16,
    pub map_name: String,
    /// The tag the client must echo once it has loaded the map.
    pub load_map_confirm: u32,
}

/// Whether `a` closes the connection after writing nothing.
pub open spec fn closes_silently(a: HandshakeAction) -> bool {
    a is Close && a->Close_0@.len() == 0
}

impl Handshake {
    /// The UDP port leaves room for the client port above it.
    pub open spec fn wf(&self) -> bool {
        self.udp_port < u16::MAX
    }

    /// Whether `a` admits a client with these identity values, owning no
    /// vehicles.
    pub open spec fn admits(a: HandshakeAction, steam_id: u64, user: User, udp_addr: PeerAddr) -> bool {
        &&& a is Admit
        &&& a->Admit_0.steam_id == steam_id
        &&& a->Admit_0.user == user
        &&& a->Admit_0.udp_addr == udp_addr
        &&& a->Admit_0.vehicles.wf()
        &&& forall|j: int| (#[trigger] a->Admit_0.vehicles.vehicle(j)) is None
    }

    /// One step of the handshake: from `old` on event `e` to `new`, with
    /// action `a`.
    pub open spec fn stepped(old: Handshake, new: Handshake, e: HandshakeEvent, a: HandshakeAction) -> bool {
        &&& new.wf()
        &&& new.tcp_peer == old.tcp_peer
        &&& new.udp_port == old.udp_port
        &&& new.http_port == old.http_port
        &&& new.map_name == old.map_name
        &&& new.load_map_confirm == old.load_map_confirm
        &&& match (old.state, e) {
            (HandshakeState::AwaitVersion, HandshakeEvent::Received(Packet::Version { confirm_id, .. })) => {
                &&& new.state == HandshakeState::AwaitAuth
                &&& a is Send
                &&& a->Send_0@ == seq![Packet::Confirmation { confirm_id }]
            },
            (HandshakeState::AwaitAuth, HandshakeEvent::Received(Packet::Authentication { auth_code, confirm_id })) => {
                &&& new.state == HandshakeState::Authenticating { confirm_id }
                &&& a == HandshakeAction::Resolve(auth_code)
            },
            (HandshakeState::Authenticating { confirm_id }, HandshakeEvent::Authenticated(ua)) => {
                &&& new.state == HandshakeState::AwaitMapLoaded {
                    steam_id: ua.steam_id,
                    user: ua.user,
                    udp_addr: expected_udp_peer(old.tcp_peer, old.udp_port),
                }
                &&& a is Send
                &&& a->Send_0@ == seq![
                    Packet::Confirmation { confirm_id },
                    Packet::ServerInfo { http_port: old.http_port, udp_port: old.udp_port },
                    Packet::LoadMap { confirm_id: old.load_map_confirm, map_name: old.map_name },
                ]
            },
            (HandshakeState::Authenticating { .. }, HandshakeEvent::AuthFailed) => {
                &&& new.state == HandshakeState::Failed
                &&& a is Close
                &&& a->Close_0@.len() == 1
                &&& a->Close_0@[0] is PlayerKick
                &&& a->Close_0@[0]->PlayerKick_reason@ == auth_failure_reason()
            },
            (HandshakeState::AwaitMapLoaded { steam_id, user, udp_addr }, HandshakeEvent::Received(Packet::Confirmation { confirm_id }))
                if confirm_id == old.load_map_confirm => {
                &&& new.state == HandshakeState::Ready
                &&& Handshake::admits(a, steam_id, user, udp_addr)
            },
            _ => {
                &&& new.state == HandshakeState::Failed
                &&& closes_silently(a)
            },
        }
    }

    /// A handshake for a connection from `tcp_peer`, which will ask the client
    /// to echo `load_map_confirm` once it has loaded the map.
    pub fn new(tcp_peer: PeerAddr, config: &Config, load_map_confirm: u32) -> (r: Handshake)
        requires
            config.wf(),
        ensures
            r.wf(),
            r.state == HandshakeState::AwaitVersion,
            r.tcp_peer == tcp_peer,
            r.udp_port == config.networking.udp_port,
            r.http_port == config.networking.http_port,
            r.map_name == config.general.map,
            r.load_map_confirm == load_map_confirm,
    {
        Handshake {
            state: HandshakeState::AwaitVersion,
            tcp_peer,
            udp_port: config.networking.udp_port,
            http_port: config.networking.http_port,
            map_name: config.general.map.clone(),
            load_map_confirm,
        }
    }

    /// Advances the handshake on event `e`.
    pub fn step(&mut self, e: HandshakeEvent) -> (a: HandshakeAction)
        requires
            old(self).wf(),
        ensures
            Handshake::stepped(*old(self), *final(self), e, a),
    {
        let mut st = HandshakeState::Failed;
        std::mem::swap(&mut self.state, &mut st);
        match st {
            HandshakeState::AwaitVersion => {
                if let HandshakeEvent::Received(Packet::Version { confirm_id, .. }) = e {
                    self.state = HandshakeState::AwaitAuth;
                    let out = vec![Packet::Confirmation { confirm_id }];
                    assert(out@ =~= seq![Packet::Confirmation { confirm_id }]);
                    return HandshakeAction::Send(out);
                }
            },
            HandshakeState::AwaitAuth => {
                if let HandshakeEvent::Received(Packet::Authentication { auth_code, confirm_id }) = e {
                    self.state = HandshakeState::Authenticating { confirm_id };
                    return HandshakeAction::Resolve(auth_code);
                }
            },
            HandshakeState::Authenticating { confirm_id } => {
                match e {
                    HandshakeEvent::Authenticated(ua) => {
                        let udp_addr = udp_peer_for(self.tcp_peer, self.udp_port);
                        self.state = HandshakeState::AwaitMapLoaded {
                            steam_id: ua.steam_id,
                            user: ua.user,
                            udp_addr,
                        };
                        let out = vec![
                            Packet::Confirmation { confirm_id },
                            Packet::ServerInfo { http_port: self.http_port, udp_port: self.udp_port },
                            Packet::LoadMap {
                                confirm_id: self.load_map_confirm,
                                map_name: self.map_name.clone(),
                            },
                        ];
                        return HandshakeAction::Send(out);
                    },
                    HandshakeEvent::AuthFailed => {
                        let reason = String::from_str("Failed to authenticate!");
                        proof {
                            reveal_strlit("Failed to authenticate!");
                        }
                        return HandshakeAction::Close(vec![Packet::PlayerKick { reason }]);
                    },
                    _ => {},
                }
            },
            HandshakeState::AwaitMapLoaded { steam_id, user, udp_addr } => {
                if let HandshakeEvent::Received(Packet::Confirmation { confirm_id }) = e {
                    if confirm_id == self.load_map_confirm {
                        self.state = HandshakeState::Ready;
                        return HandshakeAction::Admit(Client::new(udp_addr, steam_id, user));
                    }
                }
            },
            _ => {},
        }
        HandshakeAction::Close(Vec::new())
    }
}

/// A completed handshake: version, auth token, accepted identity and the
/// map-loaded confirmation. The client receives two confirmations, the server
/// information and the map to load, in that order; it is admitted with the
/// identity the service gave and the UDP endpoint derived from its TCP peer;
/// and once the admission is applied it stands in the client table exactly once.
pub proof fn lemma_handshake_success(
    h0: Handshake,
    h1: Handshake,
    h2: Handshake,
    h3: Handshake,
    h4: Handshake,
    client_version: String,
    version_confirm: u32,
    auth_code: String,
    auth_confirm: u32,
    ua: UserAuth,
    a1: HandshakeAction,
    a2: HandshakeAction,
    a3: HandshakeAction,
    a4: HandshakeAction,
    s0: Server,
    s1: Server,
)
    requires
        h0.wf(),
        h0.state == HandshakeState::AwaitVersion,
        Handshake::stepped(h0, h1, HandshakeEvent::Received(Packet::Version { client_version, confirm_id: version_confirm }), a1),
        Handshake::stepped(h1, h2, HandshakeEvent::Received(Packet::Authentication { auth_code, confirm_id: auth_confirm }), a2),
        Handshake::stepped(h2, h3, HandshakeEvent::Authenticated(ua), a3),
        Handshake::stepped(h3, h4, HandshakeEvent::Received(Packet::Confirmation { confirm_id: h0.load_map_confirm }), a4),
        s0.wf(),
        a4 is Admit ==> Server::admitted(s0, s1, a4->Admit_0),
    ensures
        a1 is Send,
        a2 == HandshakeAction::Resolve(auth_code),
        a3 is Send,
        a1->Send_0@ + a3->Send_0@ == seq![
            Packet::Confirmation { confirm_id: version_confirm },
            Packet::Confirmation { confirm_id: auth_confirm },
            Packet::ServerInfo { http_port: h0.http_port, udp_port: h0.udp_port },
            Packet::LoadMap { confirm_id: h0.load_map_confirm, map_name: h0.map_name },
        ],
        Handshake::admits(a4, ua.steam_id, ua.user, expected_udp_peer(h0.tcp_peer, h0.udp_port)),
        h4.state == HandshakeState::Ready,
        exists|i: int| 0 <= i < s1.clients.clients.len() && s1.clients.clients[i].steam_id == ua.steam_id
            && forall|j: int| 0 <= j < s1.clients.clients.len() && (#[trigger] s1.clients.clients[j]).steam_id == ua.steam_id ==> j == i,
{
    assert(a1->Send_0@ + a3->Send_0@ =~= seq![
        Packet::Confirmation { confirm_id: version_confirm },
        Packet::Confirmation { confirm_id: auth_confirm },
        Packet::ServerInfo { http_port: h0.http_port, udp_port: h0.udp_port },
        Packet::LoadMap { confirm_id: h0.load_map_confirm, map_name: h0.map_name },
    ]);
    assert(s1.clients.contains(ua.steam_id));
    let ids = s1.clients.ids();
    let i = ids.index_of(ua.steam_id);
    assert(s1.clients.clients[i].steam_id == ua.steam_id);
    assert forall|j: int| 0 <= j < s1.clients.clients.len() && (#[trigger] s1.clients.clients[j]).steam_id == ua.steam_id implies j == i by {
        assert(ids[j] == ids[i]);
    }
}

/// A refused auth token: the client gets exactly one packet, a kick, the
/// connection is closed, and no later event on it admits anyone.
pub proof fn lemma_handshake_auth_failure(
    h0: Handshake,
    h1: Handshake,
    h2: Handshake,
    a1: HandshakeAction,
    e: HandshakeEvent,
    a2: HandshakeAction,
)
    requires
        h0.wf(),
        h0.state is Authenticating,
        Handshake::stepped(h0, h1, HandshakeEvent::AuthFailed, a1),
        Handshake::stepped(h1, h2, e, a2),
    ensures
        a1 is Close,
        a1->Close_0@.len() == 1,
        a1->Close_0@[0] is PlayerKick,
        a1->Close_0@[0]->PlayerKick_reason@ == auth_failure_reason(),
        h1.state == HandshakeState::Failed,
        closes_silently(a2),
        !(a2 is Admit),
{
}

} // verus!
