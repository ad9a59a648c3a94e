use ngmp_server::{
    Config, ConfigGeneral, ConfigNetworking, Handshake, HandshakeAction, HandshakeEvent,
    HandshakeState, IpAddress, Packet, PeerAddr, Server, User, UserAuth,
};

fn config() -> Config {
    Config {
        general: ConfigGeneral { map: "gridmap".to_string() },
        networking: ConfigNetworking { tcp_port: 30813, udp_port: 30814, http_port: 30812 },
    }
}

fn peer() -> PeerAddr {
    PeerAddr { ip: IpAddress::V4(0x0a00_0005), port: 41000 }
}

fn auth() -> UserAuth {
    UserAuth {
        auth: "ok".to_string(),
        steam_id: 111,
        user: User { name: "alice".to_string(), avatar_hash: "abc".to_string() },
    }
}

fn sent(a: HandshakeAction) -> Vec<Packet> {
    match a {
        HandshakeAction::Send(p) => p,
        other => panic!("expected packets to send, got {:?}", other),
    }
}

fn through_auth() -> (Handshake, Vec<Packet>) {
    let mut h = Handshake::new(peer(), &config(), 8);
    let mut trace = sent(h.step(HandshakeEvent::Received(Packet::Version {
        client_version: "0.1".to_string(),
        confirm_id: 1,
    })));
    match h.step(HandshakeEvent::Received(Packet::Authentication {
        auth_code: "token".to_string(),
        confirm_id: 2,
    })) {
        HandshakeAction::Resolve(code) => assert_eq!(code, "token"),
        other => panic!("expected a resolve, got {:?}", other),
    }
    trace.extend(sent(h.step(HandshakeEvent::Authenticated(auth()))));
    (h, trace)
}

#[test]
fn handshake_success() {
    let (mut h, trace) = through_auth();
    assert_eq!(trace.len(), 4);
    assert!(matches!(trace[0], Packet::Confirmation { confirm_id: 1 }));
    assert!(matches!(trace[1], Packet::Confirmation { confirm_id: 2 }));
    assert!(matches!(trace[2], Packet::ServerInfo { http_port: 30812, udp_port: 30814 }));
    match &trace[3] {
        Packet::LoadMap { confirm_id, map_name } => {
            assert_eq!(*confirm_id, 8);
            assert_eq!(map_name, "gridmap");
        }
        other => panic!("unexpected packet {:?}", other),
    }
    let c = match h.step(HandshakeEvent::Received(Packet::Confirmation { confirm_id: 8 })) {
        HandshakeAction::Admit(c) => c,
        other => panic!("expected admission, got {:?}", other),
    };
    assert!(matches!(h.state, HandshakeState::Ready));
    assert_eq!(c.steam_id, 111);
    assert_eq!(c.user.name, "alice");
    assert_eq!(c.udp_addr, PeerAddr { ip: IpAddress::V4(0x0a00_0005), port: 30815 });
    let mut s = Server::new();
    s.add_client(c);
    assert_eq!(s.clients.clients.iter().filter(|c| c.steam_id == 111).count(), 1);
}

#[test]
fn handshake_auth_failure() {
    let mut h = Handshake::new(peer(), &config(), 8);
    h.step(HandshakeEvent::Received(Packet::Version { client_version: "0.1".to_string(), confirm_id: 1 }));
    h.step(HandshakeEvent::Received(Packet::Authentication { auth_code: "bad".to_string(), confirm_id: 2 }));
    match h.step(HandshakeEvent::AuthFailed) {
        HandshakeAction::Close(p) => {
            assert_eq!(p.len(), 1);
            match &p[0] {
                Packet::PlayerKick { reason } => assert_eq!(reason, "Failed to authenticate!"),
                other => panic!("unexpected packet {:?}", other),
            }
        }
        other => panic!("expected a kick, got {:?}", other),
    }
    assert!(matches!(h.state, HandshakeState::Failed));
    let later = h.step(HandshakeEvent::Received(Packet::Confirmation { confirm_id: 8 }));
    assert!(matches!(later, HandshakeAction::Close(ref p) if p.is_empty()));
}

#[test]
fn handshake_wrong_confirmation_fails() {
    let (mut h, _) = through_auth();
    let a = h.step(HandshakeEvent::Received(Packet::Confirmation { confirm_id: 9 }));
    assert!(matches!(a, HandshakeAction::Close(ref p) if p.is_empty()));
    assert!(matches!(h.state, HandshakeState::Failed));
}

#[test]
fn handshake_wrong_packet_fails() {
    let mut h = Handshake::new(peer(), &config(), 8);
    let a = h.step(HandshakeEvent::Received(Packet::Confirmation { confirm_id: 1 }));
    assert!(matches!(a, HandshakeAction::Close(ref p) if p.is_empty()));
    let mut h = Handshake::new(peer(), &config(), 8);
    h.step(HandshakeEvent::Received(Packet::Version { client_version: "0.1".to_string(), confirm_id: 1 }));
    let a = h.step(HandshakeEvent::TransportFailed);
    assert!(matches!(a, HandshakeAction::Close(ref p) if p.is_empty()));
    assert!(matches!(h.state, HandshakeState::Failed));
}

#[test]
fn config_port_room() {
    assert!(config().is_usable());
    let mut c = config();
    c.networking.udp_port = u16::MAX;
    assert!(!c.is_usable());
}
