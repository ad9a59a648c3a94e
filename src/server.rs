use vstd::prelude::*;
use crate::net::PeerAddr;
use crate::packet::{Packet, UdpMessage, VehicleData, VehicleSpawnPacket};
use crate::registry::{Client, ServerClients};
use crate::vehicle::{Vehicle, VehicleStore};

verus! {

/// What the network side does after a TCP packet was handled.
#[derive(Debug)]
pub enum TcpAction {
    /// Nothing is sent.
    Ignore,
    /// No vehicle id was free, or the sender is gone: nothing is sent.
    SpawnRefused,
    /// Write `reply` to `owner`; only if that write succeeds, write `announce`
    /// to every client but `owner`.
    SpawnAccepted { owner: u64, reply: Packet, announce: Packet },
}

/// The replication engine's state: the admitted clients and whether the
/// roster changed since it was last sent.
#[derive(Debug)]
pub struct Server {
    pub clients: ServerClients,
    pub update_player_data_flag: bool,
}

/// Whether `i` is the first position in `clients` whose UDP endpoint is `addr`.
pub open spec fn first_with_udp(clients: Seq<Client>, addr: PeerAddr, i: int) -> bool {
    &&& 0 <= i < clients.len()
    &&& clients[i].udp_addr == addr
    &&& forall|j: int| 0 <= j < i ==> (#[trigger] clients[j]).udp_addr != addr
}

/// Whether no client in `clients` has UDP endpoint `addr`.
pub open spec fn unknown_udp(clients: Seq<Client>, addr: PeerAddr) -> bool {
    forall|j: int| 0 <= j < clients.len() ==> (#[trigger] clients[j]).udp_addr != addr
}

/// `new` is `old` with the vehicles of the client at `i` replaced by `store`.
pub open spec fn vehicles_replaced(old: Seq<Client>, new: Seq<Client>, i: int, store: VehicleStore) -> bool {
    new == old.update(i, Client { vehicles: store, ..old[i] })
}

/// The id that a spawn outcome hands out, read from its confirmation.
pub open spec fn spawn_id(a: TcpAction) -> Option<u16> {
    match a {
        TcpAction::SpawnAccepted { reply: Packet::VehicleConfirm { vehicle_id, .. }, .. } => Some(vehicle_id),
        _ => None,
    }
}

/// The outcome of spawn request `p` from `owner` when allocation gave `id`:
/// the confirmation for the owner and the request, with its id filled in, for
/// everyone else.
pub open spec fn spawn_action(p: VehicleSpawnPacket, owner: u64, id: Option<u16>) -> TcpAction {
    match id {
        Some(vid) => TcpAction::SpawnAccepted {
            owner,
            reply: Packet::VehicleConfirm {
                confirm_id: p.confirm_id,
                vehicle_id: vid,
                obj_id: p.vehicle_data.object_id,
            },
            announce: Packet::VehicleSpawn(VehicleSpawnPacket { vehicle_id: vid, ..p }),
        },
        None => TcpAction::SpawnRefused,
    }
}

/// The datagrams that replicate vehicle `vid` of player `owner` to `target`:
/// its transform if one was received, then its runtime record if one was.
pub open spec fn vehicle_datagrams(owner: u64, vid: u16, v: Vehicle, target: PeerAddr) -> Seq<(PeerAddr, Packet)> {
    (if v.latest_transform.ms > 0 {
        seq![(target, Packet::VehicleTransform { player_id: owner, vehicle_id: vid, transform: v.latest_transform.json })]
    } else {
        Seq::empty()
    }) + (if v.latest_runtime.ms > 0 {
        seq![(target, Packet::VehicleUpdate(v.latest_runtime))]
    } else {
        Seq::empty()
    })
}

/// The datagrams that replicate vehicle `vid` of the client at `i` to the
/// clients at positions below `n`, skipping the owner itself.
pub open spec fn fan_out(clients: Seq<Client>, i: int, vid: u16, v: Vehicle, n: int) -> Seq<(PeerAddr, Packet)>
    decreases n,
{
    if n <= 0 {
        Seq::empty()
    } else {
        fan_out(clients, i, vid, v, n - 1) + if n - 1 == i {
            Seq::empty()
        } else {
            vehicle_datagrams(clients[i].steam_id, vid, v, clients[n - 1].udp_addr)
        }
    }
}

/// The datagrams that replicate the vehicles of the client at `i` with ids
/// below `k`.
pub open spec fn client_datagrams(clients: Seq<Client>, i: int, k: int) -> Seq<(PeerAddr, Packet)>
    decreases k,
{
    if k <= 0 {
        Seq::empty()
    } else {
        client_datagrams(clients, i, k - 1) + match clients[i].vehicles.vehicle(k - 1) {
            Some(v) => fan_out(clients, i, (k - 1) as u16, v, clients.len() as int),
            None => Seq::empty(),
        }
    }
}

/// The datagrams of one replication round for the clients at positions below `n`.
pub open spec fn replication(clients: Seq<Client>, n: int) -> Seq<(PeerAddr, Packet)>
    decreases n,
{
    if n <= 0 {
        Seq::empty()
    } else {
        replication(clients, n - 1) + client_datagrams(clients, n - 1, clients[n - 1].vehicles.slots.len() as int)
    }
}

fn push_vehicle_datagrams(out: &mut Vec<(PeerAddr, Packet)>, owner: u64, vid: u16, v: &Vehicle, target: PeerAddr)
    ensures
        final(out)@ == old(out)@ + vehicle_datagrams(owner, vid, *v, target),
{
    let ghost start = out@;
    if v.latest_transform.ms > 0 {
        out.push((target, Packet::VehicleTransform {
            player_id: owner,
            vehicle_id: vid,
            transform: v.latest_transform.json.clone(),
        }));
    }
    let ghost mid = out@;
    if v.latest_runtime.ms > 0 {
        out.push((target, Packet::VehicleUpdate(v.latest_runtime.duplicate())));
    }
    assert(out@ =~= start + vehicle_datagrams(owner, vid, *v, target));
}

proof fn lemma_first_with_udp_unique(clients: Seq<Client>, addr: PeerAddr, i: int, k: int)
    requires
        first_with_udp(clients, addr, i),
        first_with_udp(clients, addr, k),
    ensures
        i == k,
{
    if i < k {
        assert(clients[i].udp_addr != addr);
    } else if k < i {
        assert(clients[k].udp_addr != addr);
    }
}

impl Server {
    /// The client table is well formed.
    pub open spec fn wf(&self) -> bool {
        self.clients.wf()
    }

    /// The position of the client with player id `id`.
    pub open spec fn position(&self, id: u64) -> int {
        self.clients.ids().index_of(id)
    }

    /// What admitting `c` does: the client table takes `c` (replacing one with
    /// the same id) and the roster is marked changed.
    pub open spec fn admitted(old: Server, new: Server, c: Client) -> bool {
        &&& new.wf()
        &&& new.update_player_data_flag
        &&& forall|x: u64| #[trigger] new.clients.contains(x) <==> (old.clients.contains(x) || x == c.steam_id)
        &&& old.clients.contains(c.steam_id) ==> new.clients.clients@ == old.clients.clients@.update(old.position(c.steam_id), c)
        &&& !old.clients.contains(c.steam_id) ==> new.clients.clients@ == old.clients.clients@.push(c)
    }

    /// What removing player `id` does; `r` is the removed client. The roster
    /// is marked changed when a client left.
    pub open spec fn removed(old: Server, new: Server, id: u64, r: Option<Client>) -> bool {
        &&& new.wf()
        &&& forall|x: u64| #[trigger] new.clients.contains(x) <==> (old.clients.contains(x) && x != id)
        &&& match r {
            Some(c) => {
                &&& old.clients.contains(id)
                &&& c == old.clients.clients@[old.position(id)]
                &&& new.clients.clients@ == old.clients.clients@.remove(old.position(id))
                &&& new.update_player_data_flag
            },
            None => {
                &&& !old.clients.contains(id)
                &&& new.clients.clients@ == old.clients.clients@
                &&& new.update_player_data_flag == old.update_player_data_flag
            },
        }
    }

    /// What taking the roster delta does: `r` carries the roster exactly when
    /// it had changed, and the change is then cleared.
    pub open spec fn delta_taken(old: Server, new: Server, r: Option<Packet>) -> bool {
        &&& new.wf()
        &&& new.clients == old.clients
        &&& !new.update_player_data_flag
        &&& match r {
            Some(Packet::PlayerData { players }) => old.update_player_data_flag && players@ == old.clients.roster(),
            Some(_) => false,
            None => !old.update_player_data_flag,
        }
    }

    /// The table and the roster mark are as before.
    pub open spec fn unchanged(old: Server, new: Server) -> bool {
        &&& new.clients.clients@ == old.clients.clients@
        &&& new.update_player_data_flag == old.update_player_data_flag
    }

    /// What allocating a vehicle for player `steam_id` does: the player's
    /// store allocates as `VehicleStore::allocated` says and nothing else
    /// changes; an unknown player gets `None`.
    pub open spec fn spawned(old: Server, new: Server, steam_id: u64, veh_data: VehicleData, r: Option<u16>) -> bool {
        &&& new.wf()
        &&& new.update_player_data_flag == old.update_player_data_flag
        &&& !old.clients.contains(steam_id) ==> r is None && Server::unchanged(old, new)
        &&& old.clients.contains(steam_id) ==> {
            let i = old.position(steam_id);
            &&& VehicleStore::allocated(old.clients.clients[i].vehicles, new.clients.clients[i].vehicles, veh_data, r)
            &&& vehicles_replaced(old.clients.clients@, new.clients.clients@, i, new.clients.clients[i].vehicles)
        }
    }

    /// What handling TCP packet `packet` from player `steam_id` does.
    pub open spec fn tcp_handled(old: Server, new: Server, steam_id: u64, packet: Packet, r: TcpAction) -> bool {
        &&& new.wf()
        &&& match packet {
            Packet::VehicleSpawn(p) => {
                &&& Server::spawned(old, new, steam_id, p.vehicle_data, spawn_id(r))
                &&& r == spawn_action(p, steam_id, spawn_id(r))
            },
            _ => r == TcpAction::Ignore && Server::unchanged(old, new),
        }
    }

    /// An engine with no clients and no pending roster change.
    pub fn new() -> (r: Server)
        ensures
            r.wf(),
            r.clients.clients@ == Seq::<Client>::empty(),
            !r.update_player_data_flag,
    {
        Server { clients: ServerClients::new(), update_player_data_flag: false }
    }

    proof fn lemma_position(&self, id: u64, i: int)
        requires
            self.wf(),
            0 <= i < self.clients.clients.len(),
            self.clients.clients[i].steam_id == id,
        ensures
            self.position(id) == i,
            self.clients.contains(id),
    {
        assert(self.clients.ids()[i] == id);
        let k = self.position(id);
        assert(self.clients.ids()[k] == id);
    }

    /// Admits a client whose handshake completed.
    pub fn add_client(&mut self, c: Client)
        requires
            old(self).wf(),
            c.vehicles.wf(),
        ensures
            Server::admitted(*old(self), *final(self), c),
    {
        self.update_player_data_flag = true;
        let ghost prev = *self;
        self.clients.insert(c);
        proof {
            if prev.clients.contains(c.steam_id) {
                let i = choose|i: int| 0 <= i < prev.clients.clients.len()
                    && prev.clients.clients[i].steam_id == c.steam_id
                    && self.clients.clients@ == prev.clients.clients@.update(i, c);
                prev.lemma_position(c.steam_id, i);
            }
        }
    }

    /// Drops the client with player id `id`, whose transport failed.
    pub fn remove_client(&mut self, id: u64) -> (r: Option<Client>)
        requires
            old(self).wf(),
        ensures
            Server::removed(*old(self), *final(self), id, r),
    {
        let ghost prev = *self;
        let r = self.clients.remove(id);
        if r.is_some() {
            self.update_player_data_flag = true;
            proof {
                let c = r->Some_0;
                let i = choose|i: int| 0 <= i < prev.clients.clients.len()
                    && prev.clients.clients[i] == c
                    && self.clients.clients@ == prev.clients.clients@.remove(i);
                prev.lemma_position(id, i);
            }
        }
        r
    }

    /// Hands out the roster if it changed since it was last handed out.
    pub fn take_roster_delta(&mut self) -> (r: Option<Packet>)
        requires
            old(self).wf(),
        ensures
            Server::delta_taken(*old(self), *final(self), r),
    {
        if self.update_player_data_flag {
            self.update_player_data_flag = false;
            let players = self.clients.roster_entries();
            Some(Packet::PlayerData { players })
        } else {
            None
        }
    }

    /// Allocates a vehicle for player `steam_id`; `None` when the player is
    /// not admitted or owns every id already.
    pub fn spawn_vehicle(&mut self, steam_id: u64, veh_data: VehicleData) -> (r: Option<u16>)
        requires
            old(self).wf(),
        ensures
            Server::spawned(*old(self), *final(self), steam_id, veh_data, r),
    {
        match self.clients.index_of(steam_id) {
            Some(i) => {
                proof {
                    self.lemma_position(steam_id, i as int);
                }
                let ghost prev = self.clients.clients@;
                let r = self.clients.clients[i].vehicles.add_vehicle(veh_data);
                proof {
                    assert(self.clients.clients@ =~= prev.update(i as int, Client { vehicles: self.clients.clients[i as int].vehicles, ..prev[i as int] }));
                    assert(self.clients.ids() =~= crate::registry::ids_of(prev));
                }
                r
            },
            None => None,
        }
    }

    /// Handles a TCP packet from player `steam_id`. A vehicle spawn allocates
    /// an id and yields the confirmation and the announcement; any other
    /// packet is ignored.
    pub fn tcp_handle_packet(&mut self, steam_id: u64, packet: Packet) -> (r: TcpAction)
        requires
            old(self).wf(),
        ensures
            Server::tcp_handled(*old(self), *final(self), steam_id, packet, r),
    {
        match packet {
            Packet::VehicleSpawn(p) => {
                let data = p.vehicle_data.duplicate();
                match self.spawn_vehicle(steam_id, data) {
                    Some(vid) => {
                        let reply = Packet::VehicleConfirm {
                            confirm_id: p.confirm_id,
                            vehicle_id: vid,
                            obj_id: p.vehicle_data.object_id,
                        };
                        let announce = Packet::VehicleSpawn(VehicleSpawnPacket {
                            confirm_id: p.confirm_id,
                            vehicle_id: vid,
                            vehicle_data: p.vehicle_data,
                        });
                        TcpAction::SpawnAccepted { owner: steam_id, reply, announce }
                    },
                    None => TcpAction::SpawnRefused,
                }
            },
            _ => TcpAction::Ignore,
        }
    }

    /// Handles a UDP datagram from `addr`. The first client with that UDP
    /// endpoint is the sender; datagrams from unknown endpoints are dropped.
    /// A transform or runtime record is applied only to the sender's own
    /// vehicle (its player id must be the sender's), only to an existing
    /// vehicle, and only when strictly newer than the stored record; a
    /// transform that did not decode is dropped. Returns whether a record
    /// took effect.
    pub fn udp_handle_packet(&mut self, addr: PeerAddr, msg: UdpMessage) -> (r: bool)
        requires
            old(self).wf(),
        ensures
            final(self).wf(),
            unknown_udp(old(self).clients.clients@, addr) ==> !r && Server::unchanged(*old(self), *final(self)),
            (msg is Transform && forall|i: int| #[trigger] first_with_udp(old(self).clients.clients@, addr, i)
                ==> old(self).clients.clients[i].steam_id != msg->Transform_player_id)
                ==> !r && Server::unchanged(*old(self), *final(self)),
            forall|i: int| #[trigger] first_with_udp(old(self).clients.clients@, addr, i) ==> {
                let sender = old(self).clients.clients[i];
                let store = final(self).clients.clients[i].vehicles;
                match msg {
                    UdpMessage::Transform { player_id, vehicle_id, record: Some(rec) } if player_id == sender.steam_id => {
                        &&& VehicleStore::transformed(sender.vehicles, store, vehicle_id, rec)
                        &&& vehicles_replaced(old(self).clients.clients@, final(self).clients.clients@, i, store)
                        &&& final(self).update_player_data_flag == old(self).update_player_data_flag
                        &&& r == (sender.vehicles.vehicle(vehicle_id as int) is Some
                            && rec.ms > sender.vehicles.vehicle(vehicle_id as int)->Some_0.latest_transform.ms)
                    },
                    UdpMessage::Update(p) if p.player_id == sender.steam_id => {
                        &&& VehicleStore::runtime_updated(sender.vehicles, store, p.vehicle_id, p)
                        &&& vehicles_replaced(old(self).clients.clients@, final(self).clients.clients@, i, store)
                        &&& final(self).update_player_data_flag == old(self).update_player_data_flag
                        &&& r == (sender.vehicles.vehicle(p.vehicle_id as int) is Some
                            && p.ms > sender.vehicles.vehicle(p.vehicle_id as int)->Some_0.latest_runtime.ms)
                    },
                    _ => !r && Server::unchanged(*old(self), *final(self)),
                }
            },
    {
        let i = match self.clients.get_client_from_udp_addr(addr) {
            Some(i) => i,
            None => {
                return false;
            },
        };
        proof {
            assert forall|k: int| #[trigger] first_with_udp(self.clients.clients@, addr, k) implies k == i by {
                lemma_first_with_udp_unique(self.clients.clients@, addr, i as int, k);
            }
        }
        let sender_id = self.clients.clients[i].steam_id;
        let ghost prev = self.clients.clients@;
        assert(first_with_udp(prev, addr, i as int));
        match msg {
            UdpMessage::Transform { player_id, vehicle_id, record } => {
                if player_id == sender_id {
                    if let Some(rec) = record {
                        let r = self.clients.clients[i].vehicles.update_transform(vehicle_id, rec);
                        proof {
                            assert(self.clients.clients@ =~= prev.update(i as int, Client { vehicles: self.clients.clients[i as int].vehicles, ..prev[i as int] }));
                            assert(self.clients.ids() =~= crate::registry::ids_of(prev));
                        }
                        return r;
                    }
                }
                false
            },
            UdpMessage::Update(p) => {
                if p.player_id == sender_id {
                    let vehicle_id = p.vehicle_id;
                    let r = self.clients.clients[i].vehicles.update_runtime(vehicle_id, p);
                    proof {
                        assert(self.clients.clients@ =~= prev.update(i as int, Client { vehicles: self.clients.clients[i as int].vehicles, ..prev[i as int] }));
                        assert(self.clients.ids() =~= crate::registry::ids_of(prev));
                    }
                    return r;
                }
                false
            },
            UdpMessage::Other => false,
        }
    }

    /// One replication round: for every client, every vehicle it owns and
    /// every other client, the vehicle's transform and runtime record, each
    /// only once one was received, addressed to that other client's UDP
    /// endpoint.
    pub fn replication_datagrams(&self) -> (r: Vec<(PeerAddr, Packet)>)
        requires
            self.wf(),
        ensures
            r@ == replication(self.clients.clients@, self.clients.clients.len() as int),
    {
        let clients = &self.clients.clients;
        let n = clients.len();
        let mut out: Vec<(PeerAddr, Packet)> = Vec::new();
        let mut i: usize = 0;
        while i < n
            invariant
                self.wf(),
                *clients == self.clients.clients,
                n == clients.len(),
                i <= n,
                out@ == replication(clients@, i as int),
            decreases n - i,
        {
            let owner = clients[i].steam_id;
            let slots = &clients[i].vehicles.slots;
            let ghost base = out@;
            assert(self.clients.clients[i as int].vehicles.wf());
            let mut k: usize = 0;
            while k < slots.len()
                invariant
                    self.wf(),
                    *clients == self.clients.clients,
                    n == clients.len(),
                    i < n,
                    owner == clients[i as int].steam_id,
                    slots == clients[i as int].vehicles.slots,
                    slots.len() <= 65535,
                    k <= slots.len(),
                    out@ == base + client_datagrams(clients@, i as int, k as int),
                decreases slots.len() - k,
            {
                match &slots[k] {
                    Some(v) => {
                        let ghost mid = out@;
                        let mut j: usize = 0;
                        while j < n
                            invariant
                                n == clients.len(),
                                i < n,
                                j <= n,
                                k < slots.len(),
                                slots.len() <= 65535,
                                slots == clients[i as int].vehicles.slots,
                                slots@[k as int] == Some(*v),
                                mid == base + client_datagrams(clients@, i as int, k as int),
                                owner == clients[i as int].steam_id,
                                out@ == mid + fan_out(clients@, i as int, k as u16, *v, j as int),
                            decreases n - j,
                        {
                            if j != i {
                                push_vehicle_datagrams(&mut out, owner, k as u16, v, clients[j].udp_addr);
                            }
                            j = j + 1;
                            assert(out@ =~= mid + fan_out(clients@, i as int, k as u16, *v, j as int));
                        }
                    },
                    None => {},
                }
                k = k + 1;
                assert(out@ =~= base + client_datagrams(clients@, i as int, k as int));
            }
            i = i + 1;
            assert(out@ =~= replication(clients@, i as int));
        }
        out
    }
}

/// Roster delta on admission: the next delta after a client is admitted
/// carries the roster of the table with that client in it, and the delta
/// after that carries nothing until the table changes again.
pub proof fn lemma_roster_delta_on_admission(
    s0: Server,
    s1: Server,
    s2: Server,
    s3: Server,
    c: Client,
    r1: Option<Packet>,
    r2: Option<Packet>,
)
    requires
        s0.wf(),
        Server::admitted(s0, s1, c),
        Server::delta_taken(s1, s2, r1),
        Server::delta_taken(s2, s3, r2),
    ensures
        r1 is Some,
        r1->Some_0 is PlayerData,
        r1->Some_0->PlayerData_players@ == s1.clients.roster(),
        s1.clients.contains(c.steam_id),
        forall|x: u64| #[trigger] s1.clients.contains(x) <==> (s0.clients.contains(x) || x == c.steam_id),
        r2 is None,
{
}

/// Roster delta on removal: the next delta after a client leaves carries the
/// roster of the table without it, and the delta after that carries nothing
/// until the table changes again.
pub proof fn lemma_roster_delta_on_removal(
    s0: Server,
    s1: Server,
    s2: Server,
    s3: Server,
    id: u64,
    c: Client,
    r1: Option<Packet>,
    r2: Option<Packet>,
)
    requires
        s0.wf(),
        Server::removed(s0, s1, id, Some(c)),
        Server::delta_taken(s1, s2, r1),
        Server::delta_taken(s2, s3, r2),
    ensures
        r1 is Some,
        r1->Some_0 is PlayerData,
        r1->Some_0->PlayerData_players@ == s1.clients.roster(),
        !s1.clients.contains(id),
        forall|x: u64| #[trigger] s1.clients.contains(x) <==> (s0.clients.contains(x) && x != id),
        r2 is None,
{
}

/// Spawn fan-out: an accepted spawn from player `owner` is confirmed to the
/// owner alone, and its announcement, carrying the allocated id, goes to every
/// other admitted client exactly once and never back to the owner.
pub proof fn lemma_spawn_fan_out(
    s0: Server,
    s1: Server,
    owner: u64,
    p: VehicleSpawnPacket,
    a: TcpAction,
    targets: Seq<u64>,
)
    requires
        s0.wf(),
        Server::tcp_handled(s0, s1, owner, Packet::VehicleSpawn(p), a),
        a is SpawnAccepted,
        ServerClients::reaches(s1.clients, Some(a->SpawnAccepted_owner), targets),
    ensures
        a->SpawnAccepted_owner == owner,
        s1.clients.contains(owner),
        !targets.contains(owner),
        forall|x: u64| x != owner && #[trigger] s1.clients.contains(x) ==> targets.contains(x),
        targets.no_duplicates(),
        a->SpawnAccepted_announce is VehicleSpawn,
        a->SpawnAccepted_reply is VehicleConfirm,
        a->SpawnAccepted_announce->VehicleSpawn_0.vehicle_id == a->SpawnAccepted_reply->VehicleConfirm_vehicle_id,
{
    assert(s0.clients.contains(owner));
    let i = s0.position(owner);
    assert(s0.clients.ids()[i] == owner);
    assert(s1.clients.clients@[i].steam_id == owner);
    assert(s1.clients.ids()[i] == owner);
}

} // verus!
