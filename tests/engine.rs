use ngmp_server::{
    udp_peer_for, Client, IpAddress, Packet, PeerAddr, Server, TcpAction, TransformRecord,
    UdpMessage, User, Vehicle, VehicleData, VehicleSpawnPacket, VehicleStore,
    VehicleUpdatePacket, MAX_VEHICLES,
};

fn v4(a: u8, b: u8, c: u8, d: u8) -> IpAddress {
    IpAddress::V4(u32::from_be_bytes([a, b, c, d]))
}

fn client(id: u64, name: &str, last: u8) -> Client {
    let user = User { name: name.to_string(), avatar_hash: format!("hash{}", id) };
    Client::new(PeerAddr { ip: v4(10, 0, 0, last), port: 30815 }, id, user)
}

fn spawn_packet(confirm_id: u32, object_id: u32) -> Packet {
    Packet::VehicleSpawn(VehicleSpawnPacket {
        confirm_id,
        vehicle_id: 999,
        vehicle_data: VehicleData { object_id, config: "{\"model\":\"pickup\"}".to_string() },
    })
}

fn transform(player_id: u64, vehicle_id: u16, ms: u32) -> UdpMessage {
    UdpMessage::Transform {
        player_id,
        vehicle_id,
        record: Some(TransformRecord { ms, json: format!("{{\"ms\":{}}}", ms) }),
    }
}

fn two_clients() -> Server {
    let mut s = Server::new();
    s.add_client(client(111, "alice", 1));
    s.add_client(client(222, "bob", 2));
    s
}

fn stored_transform_ms(s: &Server, pos: usize, vid: usize) -> u32 {
    s.clients.clients[pos].vehicles.slots[vid].as_ref().unwrap().latest_transform.ms
}

#[test]
fn single_client_udp_peer() {
    let tcp = PeerAddr { ip: v4(10, 0, 0, 5), port: 41000 };
    let udp = udp_peer_for(tcp, 30814);
    assert_eq!(udp, PeerAddr { ip: v4(10, 0, 0, 5), port: 30815 });
}

#[test]
fn two_client_replication() {
    let mut s = two_clients();
    match s.tcp_handle_packet(111, spawn_packet(7, 900)) {
        TcpAction::SpawnAccepted { owner, reply, announce } => {
            assert_eq!(owner, 111);
            assert!(matches!(reply, Packet::VehicleConfirm { confirm_id: 7, vehicle_id: 0, obj_id: 900 }));
            match announce {
                Packet::VehicleSpawn(p) => {
                    assert_eq!(p.vehicle_id, 0);
                    assert_eq!(p.vehicle_data.object_id, 900);
                    assert_eq!(p.confirm_id, 7);
                }
                other => panic!("unexpected announcement {:?}", other),
            }
        }
        other => panic!("unexpected action {:?}", other),
    }
    assert_eq!(s.clients.broadcast_targets(Some(111)), vec![222]);
}

#[test]
fn stale_transform_dropped() {
    let mut s = two_clients();
    s.tcp_handle_packet(111, spawn_packet(7, 900));
    let a_udp = s.clients.clients[0].udp_addr;
    let b_udp = s.clients.clients[1].udp_addr;
    assert!(s.udp_handle_packet(a_udp, transform(111, 0, 100)));
    assert!(!s.udp_handle_packet(a_udp, transform(111, 0, 50)));
    assert_eq!(stored_transform_ms(&s, 0, 0), 100);
    let out = s.replication_datagrams();
    assert_eq!(out.len(), 1);
    assert_eq!(out[0].0, b_udp);
    match &out[0].1 {
        Packet::VehicleTransform { player_id, vehicle_id, transform } => {
            assert_eq!(*player_id, 111);
            assert_eq!(*vehicle_id, 0);
            assert_eq!(transform, "{\"ms\":100}");
        }
        other => panic!("unexpected datagram {:?}", other),
    }
}

#[test]
fn spoofed_transform_rejected() {
    let mut s = two_clients();
    s.tcp_handle_packet(111, spawn_packet(7, 900));
    let b_udp = s.clients.clients[1].udp_addr;
    assert!(!s.udp_handle_packet(b_udp, transform(111, 0, 100)));
    assert_eq!(stored_transform_ms(&s, 0, 0), 0);
    assert!(s.replication_datagrams().is_empty());
}

#[test]
fn admission_delta() {
    let mut s = Server::new();
    assert!(s.take_roster_delta().is_none());
    s.add_client(client(111, "alice", 1));
    match s.take_roster_delta() {
        Some(Packet::PlayerData { players }) => {
            assert_eq!(players.len(), 1);
            assert_eq!(players[0].steam_id, 111);
            assert_eq!(players[0].name, "alice");
            assert_eq!(players[0].avatar_hash, "hash111");
        }
        other => panic!("unexpected delta {:?}", other),
    }
    assert!(s.take_roster_delta().is_none());
    s.add_client(client(222, "bob", 2));
    match s.take_roster_delta() {
        Some(Packet::PlayerData { players }) => {
            let mut ids: Vec<u64> = players.iter().map(|p| p.steam_id).collect();
            ids.sort();
            assert_eq!(ids, vec![111, 222]);
        }
        other => panic!("unexpected delta {:?}", other),
    }
    let mut targets = s.clients.broadcast_targets(None);
    targets.sort();
    assert_eq!(targets, vec![111, 222]);
}

#[test]
fn id_exhaustion_refuses_spawn() {
    let vehicle = Vehicle::new(VehicleData { object_id: 1, config: String::new() });
    let mut c = client(111, "alice", 1);
    c.vehicles = VehicleStore { slots: vec![Some(vehicle); MAX_VEHICLES as usize] };
    let mut s = Server::new();
    s.add_client(c);
    assert!(matches!(s.tcp_handle_packet(111, spawn_packet(7, 900)), TcpAction::SpawnRefused));
    assert_eq!(s.clients.clients[0].vehicles.slots.len(), MAX_VEHICLES as usize);
}

#[test]
fn removal_triggers_delta() {
    let mut s = two_clients();
    s.take_roster_delta();
    let removed = s.remove_client(111).unwrap();
    assert_eq!(removed.steam_id, 111);
    assert!(s.remove_client(111).is_none());
    match s.take_roster_delta() {
        Some(Packet::PlayerData { players }) => {
            assert_eq!(players.len(), 1);
            assert_eq!(players[0].steam_id, 222);
        }
        other => panic!("unexpected delta {:?}", other),
    }
    assert!(s.take_roster_delta().is_none());
}

#[test]
fn readmission_replaces_client() {
    let mut s = two_clients();
    s.add_client(client(111, "alice2", 9));
    assert_eq!(s.clients.clients.len(), 2);
    assert_eq!(s.clients.clients[0].user.name, "alice2");
}

#[test]
fn vehicle_ids_count_up_and_reuse_lowest() {
    let mut store = VehicleStore::new();
    let data = || VehicleData { object_id: 5, config: String::new() };
    assert_eq!(store.add_vehicle(data()), Some(0));
    assert_eq!(store.add_vehicle(data()), Some(1));
    assert_eq!(store.add_vehicle(data()), Some(2));
    assert!(store.remove_vehicle(1).is_some());
    assert!(store.remove_vehicle(1).is_none());
    assert_eq!(store.add_vehicle(data()), Some(1));
    assert_eq!(store.add_vehicle(data()), Some(3));
}

#[test]
fn freshness_keeps_maximum() {
    let mut store = VehicleStore::new();
    store.add_vehicle(VehicleData { object_id: 5, config: String::new() });
    let rec = |ms: u32| TransformRecord { ms, json: ms.to_string() };
    assert!(store.update_transform(0, rec(10)));
    assert!(store.update_transform(0, rec(30)));
    assert!(!store.update_transform(0, rec(20)));
    assert!(!store.update_transform(0, rec(30)));
    assert!(!store.update_transform(0, rec(0)));
    let v = store.slots[0].as_ref().unwrap();
    assert_eq!(v.latest_transform.ms, 30);
    assert_eq!(v.latest_transform.json, "30");
    assert!(!store.update_transform(4, rec(50)));
}

#[test]
fn runtime_updates_follow_ownership_and_freshness() {
    let mut s = two_clients();
    s.tcp_handle_packet(222, spawn_packet(3, 77));
    let a_udp = s.clients.clients[0].udp_addr;
    let b_udp = s.clients.clients[1].udp_addr;
    let update = |player_id: u64, ms: u32| {
        UdpMessage::Update(VehicleUpdatePacket {
            player_id,
            vehicle_id: 0,
            ms,
            runtime_data: format!("state{}", ms),
        })
    };
    assert!(!s.udp_handle_packet(a_udp, update(222, 40)));
    assert!(s.udp_handle_packet(b_udp, update(222, 40)));
    assert!(!s.udp_handle_packet(b_udp, update(222, 40)));
    let out = s.replication_datagrams();
    assert_eq!(out.len(), 1);
    assert_eq!(out[0].0, a_udp);
    match &out[0].1 {
        Packet::VehicleUpdate(p) => {
            assert_eq!(p.ms, 40);
            assert_eq!(p.runtime_data, "state40");
        }
        other => panic!("unexpected datagram {:?}", other),
    }
}

#[test]
fn unknown_udp_peer_dropped() {
    let mut s = two_clients();
    s.tcp_handle_packet(111, spawn_packet(7, 900));
    let stranger = PeerAddr { ip: v4(192, 168, 1, 1), port: 30815 };
    assert!(!s.udp_handle_packet(stranger, transform(111, 0, 100)));
    assert_eq!(stored_transform_ms(&s, 0, 0), 0);
}

#[test]
fn undecodable_transform_dropped() {
    let mut s = two_clients();
    s.tcp_handle_packet(111, spawn_packet(7, 900));
    let a_udp = s.clients.clients[0].udp_addr;
    let msg = UdpMessage::Transform { player_id: 111, vehicle_id: 0, record: None };
    assert!(!s.udp_handle_packet(a_udp, msg));
    assert!(!s.udp_handle_packet(a_udp, UdpMessage::Other));
    assert_eq!(stored_transform_ms(&s, 0, 0), 0);
}

#[test]
fn other_tcp_packets_ignored() {
    let mut s = two_clients();
    let action = s.tcp_handle_packet(111, Packet::Confirmation { confirm_id: 4 });
    assert!(matches!(action, TcpAction::Ignore));
    assert!(matches!(s.tcp_handle_packet(333, spawn_packet(1, 2)), TcpAction::SpawnRefused));
}

#[test]
fn replication_reaches_every_other_client() {
    let mut s = Server::new();
    s.add_client(client(1, "a", 1));
    s.add_client(client(2, "b", 2));
    s.add_client(client(3, "c", 3));
    s.tcp_handle_packet(1, spawn_packet(1, 10));
    s.tcp_handle_packet(1, spawn_packet(2, 11));
    let a_udp = s.clients.clients[0].udp_addr;
    assert!(s.udp_handle_packet(a_udp, transform(1, 0, 5)));
    assert!(s.udp_handle_packet(a_udp, transform(1, 1, 6)));
    let out = s.replication_datagrams();
    let peers: Vec<PeerAddr> = out.iter().map(|d| d.0).collect();
    let b = s.clients.clients[1].udp_addr;
    let c = s.clients.clients[2].udp_addr;
    assert_eq!(peers, vec![b, c, b, c]);
    let mut targets = s.clients.broadcast_targets(Some(1));
    targets.sort();
    assert_eq!(targets, vec![2, 3]);
}
