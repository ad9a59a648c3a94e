use vstd::prelude::*;
use crate::auth::User;
use crate::net::PeerAddr;
use crate::packet::PlayerData;
use crate::vehicle::VehicleStore;

verus! {

/// An admitted client: its identity, the UDP endpoint its datagrams come
/// from, and its vehicles.
#[derive(Clone, Debug)]
pub struct Client {
    pub udp_addr: PeerAddr,
    pub steam_id: u64,
    pub user: User,
    pub vehicles: VehicleStore,
}

impl Client {
    /// A client that owns no vehicles yet.
    pub fn new(udp_addr: PeerAddr, steam_id: u64, user: User) -> (r: Client)
        ensures
            r.udp_addr == udp_addr,
            r.steam_id == steam_id,
            r.user == user,
            r.vehicles.wf(),
            forall|j: int| (#[trigger] r.vehicles.vehicle(j)) is None,
    {
        Client { udp_addr, steam_id, user, vehicles: VehicleStore::new() }
    }
}

/// The player ids of `clients`, in order.
pub open spec fn ids_of(clients: Seq<Client>) -> Seq<u64> {
    clients.map_values(|c: Client| c.steam_id)
}

/// The roster entry of a client.
pub open spec fn roster_entry(c: Client) -> PlayerData {
    PlayerData { name: c.user.name, steam_id: c.steam_id, avatar_hash: c.user.avatar_hash }
}

/// The table of admitted clients; player ids are unique.
#[derive(Debug)]
pub struct ServerClients {
    pub clients: Vec<Client>,
}

impl ServerClients {
    /// Player ids are unique and every vehicle store is well formed.
    pub open spec fn wf(&self) -> bool {
        &&& ids_of(self.clients@).no_duplicates()
        &&& forall|i: int| 0 <= i < self.clients.len() ==> (#[trigger] self.clients[i]).vehicles.wf()
    }

    /// The player ids of the admitted clients, in table order.
    pub open spec fn ids(&self) -> Seq<u64> {
        ids_of(self.clients@)
    }

    /// Whether a client with player id `id` is admitted.
    pub open spec fn contains(&self, id: u64) -> bool {
        self.ids().contains(id)
    }

    /// The roster: one entry per admitted client, in table order.
    pub open spec fn roster(&self) -> Seq<PlayerData> {
        self.clients@.map_values(|c: Client| roster_entry(c))
    }

    /// Whether `targets` names every admitted client but `exclude`, each once.
    pub open spec fn reaches(self, exclude: Option<u64>, targets: Seq<u64>) -> bool {
        &&& targets.no_duplicates()
        &&& forall|x: u64| #[trigger] targets.contains(x) <==> (self.contains(x) && exclude != Some(x))
    }

    /// An empty table.
    pub fn new() -> (r: ServerClients)
        ensures
            r.wf(),
            r.clients@ == Seq::<Client>::empty(),
    {
        ServerClients { clients: Vec::new() }
    }

    /// The position of the client with player id `id`.
    pub fn index_of(&self, id: u64) -> (r: Option<usize>)
        ensures
            match r {
                Some(i) => i < self.clients.len() && self.clients[i as int].steam_id == id,
                None => !self.contains(id),
            },
    {
        let mut i: usize = 0;
        while i < self.clients.len()
            invariant
                i <= self.clients.len(),
                forall|j: int| 0 <= j < i ==> (#[trigger] self.clients[j]).steam_id != id,
            decreases self.clients.len() - i,
        {
            if self.clients[i].steam_id == id {
                return Some(i);
            }
            i = i + 1;
        }
        proof {
            if self.contains(id) {
                let k = self.ids().index_of(id);
                assert(self.clients[k].steam_id == id);
            }
        }
        None
    }

    /// The position of the first client whose UDP endpoint is `addr`.
    pub fn get_client_from_udp_addr(&self, addr: PeerAddr) -> (r: Option<usize>)
        ensures
            match r {
                Some(i) => {
                    &&& i < self.clients.len()
                    &&& self.clients[i as int].udp_addr == addr
                    &&& forall|j: int| 0 <= j < i ==> (#[trigger] self.clients[j]).udp_addr != addr
                },
                None => forall|j: int|
                    0 <= j < self.clients.len() ==> (#[trigger] self.clients[j]).udp_addr != addr,
            },
    {
        let mut i: usize = 0;
        while i < self.clients.len()
            invariant
                i <= self.clients.len(),
                forall|j: int| 0 <= j < i ==> (#[trigger] self.clients[j]).udp_addr != addr,
            decreases self.clients.len() - i,
        {
            if self.clients[i].udp_addr == addr {
                return Some(i);
            }
            i = i + 1;
        }
        None
    }

    /// Admits `c`, replacing an earlier client with the same player id.
    pub fn insert(&mut self, c: Client)
        requires
            old(self).wf(),
            c.vehicles.wf(),
        ensures
            final(self).wf(),
            old(self).contains(c.steam_id) ==> exists|i: int|
                0 <= i < old(self).clients.len() && old(self).clients[i].steam_id == c.steam_id
                    && final(self).clients@ == old(self).clients@.update(i, c),
            !old(self).contains(c.steam_id) ==> final(self).clients@ == old(self).clients@.push(c),
            forall|x: u64| #[trigger] final(self).contains(x) <==> (old(self).contains(x) || x == c.steam_id),
    {
        match self.index_of(c.steam_id) {
            Some(i) => {
                let ghost prev = self.clients@;
                assert(ids_of(prev)[i as int] == c.steam_id);
                self.clients.set(i, c);
                assert(ids_of(self.clients@) =~= ids_of(prev));
            },
            None => {
                let ghost prev = self.clients@;
                self.clients.push(c);
                assert(ids_of(self.clients@) =~= ids_of(prev).push(c.steam_id));
                assert forall|x: u64| #[trigger] self.contains(x) <==> (ids_of(prev).contains(x) || x == c.steam_id) by {
                    if ids_of(prev).contains(x) {
                        let k = ids_of(prev).index_of(x);
                        assert(self.ids()[k] == x);
                    }
                    if x == c.steam_id {
                        assert(self.ids()[prev.len() as int] == x);
                    }
                }
            },
        }
    }

    /// Removes the client with player id `id`, handing it back.
    pub fn remove(&mut self, id: u64) -> (r: Option<Client>)
        requires
            old(self).wf(),
        ensures
            final(self).wf(),
            match r {
                Some(c) => c.steam_id == id && exists|i: int|
                    0 <= i < old(self).clients.len() && old(self).clients[i] == c
                        && final(self).clients@ == old(self).clients@.remove(i),
                None => !old(self).contains(id) && final(self).clients@ == old(self).clients@,
            },
            forall|x: u64| #[trigger] final(self).contains(x) <==> (old(self).contains(x) && x != id),
    {
        match self.index_of(id) {
            Some(i) => {
                let ghost prev = self.clients@;
                assert(ids_of(prev)[i as int] == id);
                let c = self.clients.remove(i);
                assert(ids_of(self.clients@) =~= ids_of(prev).remove(i as int));
                assert forall|x: u64| #[trigger] self.contains(x) <==> (ids_of(prev).contains(x) && x != id) by {
                    if self.contains(x) {
                        let k = self.ids().index_of(x);
                        if k < i {
                            assert(ids_of(prev)[k] == x);
                        } else {
                            assert(ids_of(prev)[k + 1] == x);
                        }
                        assert(x != id);
                    }
                    if ids_of(prev).contains(x) && x != id {
                        let k = ids_of(prev).index_of(x);
                        if k < i {
                            assert(self.ids()[k] == x);
                        } else {
                            assert(k != i);
                            assert(self.ids()[k - 1] == x);
                        }
                    }
                }
                Some(c)
            },
            None => None,
        }
    }

    /// The player ids a broadcast reaches: every admitted client but the
    /// excluded one, each once.
    pub fn broadcast_targets(&self, exclude: Option<u64>) -> (r: Vec<u64>)
        requires
            self.wf(),
        ensures
            ServerClients::reaches(*self, exclude, r@),
    {
        let mut r: Vec<u64> = Vec::new();
        let mut i: usize = 0;
        while i < self.clients.len()
            invariant
                self.wf(),
                i <= self.clients.len(),
                r@.no_duplicates(),
                forall|k: int| 0 <= k < r.len() ==> exists|j: int|
                    0 <= j < i && #[trigger] r[k] == self.ids()[j] && exclude != Some(r[k]),
                forall|j: int| 0 <= j < i && exclude != Some(self.ids()[j])
                    ==> r@.contains(#[trigger] self.ids()[j]),
            decreases self.clients.len() - i,
        {
            let id = self.clients[i].steam_id;
            proof {
                assert(self.ids()[i as int] == id);
            }
            if exclude != Some(id) {
                let ghost prev = r@;
                assert(!prev.contains(id)) by {
                    if prev.contains(id) {
                        let k = prev.index_of(id);
                        let j = choose|j: int| 0 <= j < i && prev[k] == self.ids()[j] && exclude != Some(prev[k]);
                        assert(self.ids()[j] == self.ids()[i as int]);
                    }
                }
                r.push(id);
                assert forall|j: int| 0 <= j < i + 1 && exclude != Some(self.ids()[j])
                    implies r@.contains(#[trigger] self.ids()[j]) by {
                    if j < i {
                        let k = prev.index_of(self.ids()[j]);
                        assert(r@[k] == self.ids()[j]);
                    } else {
                        assert(r@[prev.len() as int] == id);
                    }
                }
                assert forall|k: int| 0 <= k < r.len() implies exists|j: int|
                    0 <= j < i + 1 && #[trigger] r[k] == self.ids()[j] && exclude != Some(r[k]) by {
                    if k == prev.len() {
                        assert(r[k] == self.ids()[i as int]);
                    } else {
                        assert(r[k] == prev[k]);
                    }
                }
            }
            i = i + 1;
        }
        assert forall|x: u64| #[trigger] r@.contains(x) <==> (self.contains(x) && exclude != Some(x)) by {
            if r@.contains(x) {
                let k = r@.index_of(x);
                let j = choose|j: int| 0 <= j < i && r[k] == self.ids()[j] && exclude != Some(r[k]);
                assert(self.ids()[j] == x);
            }
            if self.contains(x) && exclude != Some(x) {
                let j = self.ids().index_of(x);
                assert(r@.contains(self.ids()[j]));
            }
        }
        r
    }

    /// The roster entries of all admitted clients, in table order.
    pub fn roster_entries(&self) -> (r: Vec<PlayerData>)
        ensures
            r@ == self.roster(),
    {
        let mut r: Vec<PlayerData> = Vec::new();
        let mut i: usize = 0;
        while i < self.clients.len()
            invariant
                i <= self.clients.len(),
                r@ =~= self.clients@.take(i as int).map_values(|c: Client| roster_entry(c)),
            decreases self.clients.len() - i,
        {
            let c = &self.clients[i];
            r.push(PlayerData {
                name: c.user.name.clone(),
                steam_id: c.steam_id,
                avatar_hash: c.user.avatar_hash.clone(),
            });
            i = i + 1;
            assert(r@ =~= self.clients@.take(i as int).map_values(|c: Client| roster_entry(c)));
        }
        assert(self.clients@.take(i as int) =~= self.clients@);
        r
    }
}

} // verus!
