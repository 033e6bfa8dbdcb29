//! The messages exchanged with the game server, as the rest of the client
//! sees them. Coordinates, headings and speeds that the game keeps as `f32`
//! travel here as the `u32` bit pattern of that `f32`.

use vstd::prelude::*;

verus! {

/// The server's number for an entity in the client's zone.
#[derive(Clone, Copy, Debug, PartialEq, Eq, Structural)]
pub struct ClientEntityId(pub u16);

#[derive(Clone, Copy, Debug, PartialEq, Eq, Structural)]
pub enum MoveMode {
    Walk,
    Run,
    Drive,
}

#[derive(Clone, Copy, Debug, PartialEq, Eq, Structural)]
pub struct ConnectionResponse {
    pub packet_sequence_id: u32,
}

#[derive(Clone, Copy, Debug, PartialEq, Eq, Structural)]
pub enum ConnectionRequestError {
    Failed,
}

#[derive(Clone, Copy, Debug, PartialEq, Eq, Structural)]
pub struct JoinZoneResponse {
    pub entity_id: ClientEntityId,
    pub experience_points: u64,
    pub team: u32,
    pub health_points: u32,
    pub mana_points: u32,
    pub world_ticks: u64,
}

#[derive(Clone, Copy, Debug, PartialEq, Eq, Structural)]
pub struct MoveEntity {
    pub entity_id: ClientEntityId,
    pub target_entity_id: Option<ClientEntityId>,
    pub distance: u16,
    pub x: u32,
    pub y: u32,
    pub z: u16,
    pub move_mode: Option<MoveMode>,
}

#[derive(Clone, Copy, Debug, PartialEq, Eq, Structural)]
pub struct SpawnEntityNpc {
    pub entity_id: ClientEntityId,
    pub npc_id: u16,
    pub quest_index: u16,
    pub direction: u32,
    pub position_x: u32,
    pub position_y: u32,
    pub destination_x: u32,
    pub destination_y: u32,
    pub team: u32,
    pub health_points: u32,
    pub target_entity_id: Option<ClientEntityId>,
    pub move_mode: MoveMode,
}

#[derive(Clone, Copy, Debug, PartialEq, Eq, Structural)]
pub struct SpawnEntityMonster {
    pub entity_id: ClientEntityId,
    pub npc_id: u16,
    pub position_x: u32,
    pub position_y: u32,
    pub destination_x: u32,
    pub destination_y: u32,
    pub team: u32,
    pub health_points: u32,
    pub target_entity_id: Option<ClientEntityId>,
    pub move_mode: MoveMode,
}

#[derive(Clone, Debug, PartialEq, Eq)]
pub struct RemoveEntities {
    pub entity_ids: Vec<ClientEntityId>,
}

#[derive(Clone, Copy, Debug, PartialEq, Eq, Structural)]
pub struct Teleport {
    pub entity_id: ClientEntityId,
    pub zone_id: u16,
    pub x: u32,
    pub y: u32,
    pub run_mode: u8,
    pub ride_mode: u8,
}

#[derive(Clone, Debug, PartialEq, Eq)]
pub struct LocalChat {
    pub entity_id: ClientEntityId,
    pub text: String,
}

#[derive(Clone, Debug, PartialEq, Eq)]
pub struct ShoutChat {
    pub name: String,
    pub text: String,
}

#[derive(Clone, Debug, PartialEq, Eq)]
pub struct AnnounceChat {
    pub name: Option<String>,
    pub text: String,
}

#[derive(Clone, Debug, PartialEq, Eq)]
pub struct Whisper {
    pub from: String,
    pub text: String,
}

#[derive(Clone, Copy, Debug, PartialEq, Eq, Structural)]
pub struct UpdateSpeed {
    pub entity_id: ClientEntityId,
    pub run_speed: u32,
    pub passive_attack_speed: u32,
}

/// What the server tells the client.
#[derive(Debug, PartialEq, Eq)]
pub enum ServerMessage {
    ConnectionResponse(Result<ConnectionResponse, ConnectionRequestError>),
    JoinZone(JoinZoneResponse),
    MoveEntity(MoveEntity),
    SpawnEntityNpc(SpawnEntityNpc),
    SpawnEntityMonster(SpawnEntityMonster),
    RemoveEntities(RemoveEntities),
    Teleport(Teleport),
    LocalChat(LocalChat),
    ShoutChat(ShoutChat),
    AnnounceChat(AnnounceChat),
    Whisper(Whisper),
    UpdateSpeed(UpdateSpeed),
}

#[derive(Clone, Debug, PartialEq, Eq)]
pub struct ConnectionRequest {
    pub login_token: u32,
    pub password_md5: String,
}

#[derive(Clone, Copy, Debug, PartialEq, Eq, Structural)]
pub struct MoveRequest {
    pub target_entity_id: Option<ClientEntityId>,
    pub x: u32,
    pub y: u32,
    pub z: u16,
}

/// What the client asks of the server.
#[derive(Clone, Debug, PartialEq, Eq)]
pub enum ClientMessage {
    ConnectionRequest(ConnectionRequest),
    JoinZoneRequest,
    Move(MoveRequest),
    Chat(String),
}

} // verus!
