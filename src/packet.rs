use vstd::prelude::*;

verus! {

/// One entry of a roster: a player's display name, id and avatar hash.
#[derive(Clone, Debug)]
pub struct PlayerData {
    pub name: String,
    pub steam_id: u64,
    pub avatar_hash: String,
}

/// The creation descriptor a client supplies when it spawns a vehicle. The
/// server reads only the object id; the rest travels through unchanged.
#[derive(Clone, Debug)]
pub struct VehicleData {
    pub object_id: u32,
    pub config: String,
}

/// A request to spawn a vehicle, and the announcement of one.
#[derive(Clone, Debug)]
pub struct VehicleSpawnPacket {
    pub confirm_id: u32,
    pub vehicle_id: u16,
    pub vehicle_data: VehicleData,
}

/// Runtime state of a vehicle, opaque apart from its owner, id and timestamp.
#[derive(Clone, Debug)]
pub struct VehicleUpdatePacket {
    pub player_id: u64,
    pub vehicle_id: u16,
    pub ms: u32,
    pub runtime_data: String,
}

/// The tagged packets exchanged with launcher clients.
#[derive(Clone, Debug)]
pub enum Packet {
    Version { client_version: String, confirm_id: u32 },
    Authentication { auth_code: String, confirm_id: u32 },
    Confirmation { confirm_id: u32 },
    ServerInfo { http_port: u16, udp_port: u16 },
    LoadMap { confirm_id: u32, map_name: String },
    PlayerKick { reason: String },
    PlayerData { players: Vec<PlayerData> },
    VehicleSpawn(VehicleSpawnPacket),
    VehicleConfirm { confirm_id: u32, vehicle_id: u16, obj_id: u32 },
    VehicleTransform { player_id: u64, vehicle_id: u16, transform: String },
    VehicleUpdate(VehicleUpdatePacket),
}

/// A transform record as the server keeps it: its timestamp and its JSON form,
/// which is replicated verbatim.
#[derive(Clone, Debug)]
pub struct TransformRecord {
    pub ms: u32,
    pub json: String,
}

/// A UDP datagram from a client, with the transform payload already decoded.
#[derive(Clone, Debug)]
pub enum UdpMessage {
    /// A transform; `record` is `None` where the payload did not decode.
    Transform { player_id: u64, vehicle_id: u16, record: Option<TransformRecord> },
    Update(VehicleUpdatePacket),
    Other,
}

impl TransformRecord {
    /// The record of a vehicle that has sent no transform yet.
    pub fn empty() -> (r: TransformRecord)
        ensures
            r.ms == 0,
            r.json@ == Seq::<char>::empty(),
    {
        TransformRecord { ms: 0, json: String::new() }
    }
}

impl VehicleData {
    /// A copy of the descriptor.
    pub fn duplicate(&self) -> (r: VehicleData)
        ensures
            r == *self,
    {
        VehicleData { object_id: self.object_id, config: self.config.clone() }
    }
}

impl VehicleUpdatePacket {
    /// A copy of the record.
    pub fn duplicate(&self) -> (r: VehicleUpdatePacket)
        ensures
            r == *self,
    {
        VehicleUpdatePacket {
            player_id: self.player_id,
            vehicle_id: self.vehicle_id,
            ms: self.ms,
            runtime_data: self.runtime_data.clone(),
        }
    }

    /// The runtime record of a vehicle that has sent no update yet.
    pub fn empty() -> (r: VehicleUpdatePacket)
        ensures
            r.player_id == 0,
            r.vehicle_id == 0,
            r.ms == 0,
            r.runtime_data@ == Seq::<char>::empty(),
    {
        VehicleUpdatePacket { player_id: 0, vehicle_id: 0, ms: 0, runtime_data: String::new() }
    }
}

} // verus!
