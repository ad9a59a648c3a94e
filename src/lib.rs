//! Session and replication engine of a multiplayer vehicle server.
//!
//! The modules hold the logic; sockets, timers, the identity service and the
//! scripting hooks are driven from outside through plain values.
pub mod auth;
pub mod config;
pub mod handshake;
pub mod logger;
pub mod net;
pub mod packet;
pub mod registry;
pub mod server;
pub mod vehicle;

pub use auth::{User, UserAuth};
pub use config::{Config, ConfigGeneral, ConfigNetworking};
pub use handshake::{Handshake, HandshakeAction, HandshakeEvent, HandshakeState};
pub use logger::{init, Level, LevelFilter, NgmpLogger};
pub use net::{udp_peer_for, IpAddress, PeerAddr};
pub use packet::{
    Packet, PlayerData, TransformRecord, UdpMessage, VehicleData, VehicleSpawnPacket,
    VehicleUpdatePacket,
};
pub use registry::{Client, ServerClients};
pub use server::{Server, TcpAction};
pub use vehicle::{Vehicle, VehicleStore, MAX_VEHICLES};
