//! The packet table: which command carries which message, and how each
//! message's values are laid out as payload fields.
//!
//! Each command has a schema, the list of field kinds its payload holds.
//! Decoding reads the payload against the schema and then builds the message
//! from the fields; encoding turns the message into fields and writes them.

use vstd::prelude::*;
use crate::field::{
    DecodeError, EncodeError, Field, FieldKind, FieldView, decode_payload, encode_fields,
    field_error, fields_view, fields_wf, kind_of, kinds_of, option_text_view, read_payload,
    encode_payload, lemma_parsed_kinds, lemma_payload_round_trip, lemma_payload_truncated,
};
use crate::messages::{
    AnnounceChat, ClientEntityId, ClientMessage, ConnectionRequest, MoveRequest, ConnectionRequestError, ConnectionResponse, JoinZoneResponse,
    LocalChat, MoveEntity, MoveMode, RemoveEntities, ServerMessage, ShoutChat, SpawnEntityMonster,
    SpawnEntityNpc, Teleport, UpdateSpeed, Whisper,
};
use crate::packet::Packet;

verus! {

pub const SERVER_CONNECT_REPLY: u16 = 0x70c;
pub const SERVER_JOIN_ZONE: u16 = 0x753;
pub const SERVER_LOCAL_CHAT: u16 = 0x783;
pub const SERVER_WHISPER: u16 = 0x784;
pub const SERVER_SHOUT_CHAT: u16 = 0x785;
pub const SERVER_ANNOUNCE_CHAT: u16 = 0x786;
pub const SERVER_SPAWN_ENTITY_NPC: u16 = 0x791;
pub const SERVER_SPAWN_ENTITY_MONSTER: u16 = 0x792;
pub const SERVER_REMOVE_ENTITIES: u16 = 0x794;
pub const SERVER_MOVE_ENTITY_WITH_MOVE_MODE: u16 = 0x797;
pub const SERVER_MOVE_ENTITY: u16 = 0x79a;
pub const SERVER_TELEPORT: u16 = 0x7a8;
pub const SERVER_UPDATE_SPEED: u16 = 0x7b8;

pub const CLIENT_CONNECT_REQUEST: u16 = 0x70b;
pub const CLIENT_JOIN_ZONE_REQUEST: u16 = 0x753;
pub const CLIENT_CHAT: u16 = 0x783;
pub const CLIENT_MOVE: u16 = 0x79a;

// ---------------------------------------------------------------------------
// Layout of the values of a message.
pub open spec fn id_field(id: ClientEntityId) -> FieldView {
    FieldView::U16(id.0)
}

pub open spec fn target_field(target: Option<ClientEntityId>) -> FieldView {
    FieldView::OptionalU16(
        match target {
            Some(id) => Some(id.0),
            None => None,
        },
    )
}

pub open spec fn move_mode_code(mode: MoveMode) -> u8 {
    match mode {
        MoveMode::Walk => 0,
        MoveMode::Run => 1,
        MoveMode::Drive => 2,
    }
}

/// A move mode field holds one of the codes of [`move_mode_code`].
pub open spec fn valid_move_mode(f: FieldView) -> bool {
    f matches FieldView::U8(c) && c <= 2
}

pub open spec fn entity_ids_view(ids: Seq<ClientEntityId>) -> Seq<u16> {
    ids.map_values(|id: ClientEntityId| id.0)
}

pub open spec fn move_entity_kinds() -> Seq<FieldKind> {
    seq![
        FieldKind::U16,
        FieldKind::OptionalU16,
        FieldKind::U16,
        FieldKind::U32,
        FieldKind::U32,
        FieldKind::U16,
    ]
}

/// The payload layout of each command the server sends.
pub open spec fn server_schema(command: u16) -> Option<Seq<FieldKind>> {
    if command == SERVER_CONNECT_REPLY {
        Some(seq![FieldKind::U8, FieldKind::U32, FieldKind::U32])
    } else if command == SERVER_JOIN_ZONE {
        Some(
            seq![
                FieldKind::U16,
                FieldKind::U64,
                FieldKind::U32,
                FieldKind::U32,
                FieldKind::U32,
                FieldKind::U64,
            ],
        )
    } else if command == SERVER_MOVE_ENTITY {
        Some(move_entity_kinds())
    } else if command == SERVER_MOVE_ENTITY_WITH_MOVE_MODE {
        Some(move_entity_kinds().push(FieldKind::U8))
    } else if command == SERVER_SPAWN_ENTITY_NPC {
        Some(
            seq![
                FieldKind::U16,
                FieldKind::U16,
                FieldKind::U16,
                FieldKind::U32,
                FieldKind::U32,
                FieldKind::U32,
                FieldKind::U32,
                FieldKind::U32,
                FieldKind::U32,
                FieldKind::U32,
                FieldKind::OptionalU16,
                FieldKind::U8,
            ],
        )
    } else if command == SERVER_SPAWN_ENTITY_MONSTER {
        Some(
            seq![
                FieldKind::U16,
                FieldKind::U16,
                FieldKind::U32,
                FieldKind::U32,
                FieldKind::U32,
                FieldKind::U32,
                FieldKind::U32,
                FieldKind::U32,
                FieldKind::OptionalU16,
                FieldKind::U8,
            ],
        )
    } else if command == SERVER_REMOVE_ENTITIES {
        Some(seq![FieldKind::U16List])
    } else if command == SERVER_TELEPORT {
        Some(
            seq![
                FieldKind::U16,
                FieldKind::U16,
                FieldKind::U32,
                FieldKind::U32,
                FieldKind::U8,
                FieldKind::U8,
            ],
        )
    } else if command == SERVER_LOCAL_CHAT {
        Some(seq![FieldKind::U16, FieldKind::Text])
    } else if command == SERVER_SHOUT_CHAT || command == SERVER_WHISPER {
        Some(seq![FieldKind::Text, FieldKind::Text])
    } else if command == SERVER_ANNOUNCE_CHAT {
        Some(seq![FieldKind::OptionalText, FieldKind::Text])
    } else if command == SERVER_UPDATE_SPEED {
        Some(seq![FieldKind::U16, FieldKind::U32, FieldKind::U32])
    } else {
        None
    }
}

/// The command that carries a server message.
pub open spec fn server_command(m: ServerMessage) -> u16 {
    match m {
        ServerMessage::ConnectionResponse(_) => SERVER_CONNECT_REPLY,
        ServerMessage::JoinZone(_) => SERVER_JOIN_ZONE,
        ServerMessage::MoveEntity(mv) => if mv.move_mode is Some {
            SERVER_MOVE_ENTITY_WITH_MOVE_MODE
        } else {
            SERVER_MOVE_ENTITY
        },
        ServerMessage::SpawnEntityNpc(_) => SERVER_SPAWN_ENTITY_NPC,
        ServerMessage::SpawnEntityMonster(_) => SERVER_SPAWN_ENTITY_MONSTER,
        ServerMessage::RemoveEntities(_) => SERVER_REMOVE_ENTITIES,
        ServerMessage::Teleport(_) => SERVER_TELEPORT,
        ServerMessage::LocalChat(_) => SERVER_LOCAL_CHAT,
        ServerMessage::ShoutChat(_) => SERVER_SHOUT_CHAT,
        ServerMessage::AnnounceChat(_) => SERVER_ANNOUNCE_CHAT,
        ServerMessage::Whisper(_) => SERVER_WHISPER,
        ServerMessage::UpdateSpeed(_) => SERVER_UPDATE_SPEED,
    }
}

/// The payload fields of a server message, in order. Every value the message
/// holds appears among them.
pub open spec fn server_fields(m: ServerMessage) -> Seq<FieldView> {
    match m {
        ServerMessage::ConnectionResponse(Ok(r)) => seq![
            FieldView::U8(0),
            FieldView::U32(r.packet_sequence_id),
            FieldView::U32(0),
        ],
        ServerMessage::ConnectionResponse(Err(_)) => seq![
            FieldView::U8(1),
            FieldView::U32(0),
            FieldView::U32(0),
        ],
        ServerMessage::JoinZone(j) => seq![
            id_field(j.entity_id),
            FieldView::U64(j.experience_points),
            FieldView::U32(j.team),
            FieldView::U32(j.health_points),
            FieldView::U32(j.mana_points),
            FieldView::U64(j.world_ticks),
        ],
        ServerMessage::MoveEntity(mv) => {
            let base = seq![
                id_field(mv.entity_id),
                target_field(mv.target_entity_id),
                FieldView::U16(mv.distance),
                FieldView::U32(mv.x),
                FieldView::U32(mv.y),
                FieldView::U16(mv.z),
            ];
            match mv.move_mode {
                Some(mode) => base.push(FieldView::U8(move_mode_code(mode))),
                None => base,
            }
        },
        ServerMessage::SpawnEntityNpc(n) => seq![
            id_field(n.entity_id),
            FieldView::U16(n.npc_id),
            FieldView::U16(n.quest_index),
            FieldView::U32(n.direction),
            FieldView::U32(n.position_x),
            FieldView::U32(n.position_y),
            FieldView::U32(n.destination_x),
            FieldView::U32(n.destination_y),
            FieldView::U32(n.team),
            FieldView::U32(n.health_points),
            target_field(n.target_entity_id),
            FieldView::U8(move_mode_code(n.move_mode)),
        ],
        ServerMessage::SpawnEntityMonster(n) => seq![
            id_field(n.entity_id),
            FieldView::U16(n.npc_id),
            FieldView::U32(n.position_x),
            FieldView::U32(n.position_y),
            FieldView::U32(n.destination_x),
            FieldView::U32(n.destination_y),
            FieldView::U32(n.team),
            FieldView::U32(n.health_points),
            target_field(n.target_entity_id),
            FieldView::U8(move_mode_code(n.move_mode)),
        ],
        ServerMessage::RemoveEntities(r) => seq![
            FieldView::U16List(entity_ids_view(r.entity_ids@)),
        ],
        ServerMessage::Teleport(t) => seq![
            id_field(t.entity_id),
            FieldView::U16(t.zone_id),
            FieldView::U32(t.x),
            FieldView::U32(t.y),
            FieldView::U8(t.run_mode),
            FieldView::U8(t.ride_mode),
        ],
        ServerMessage::LocalChat(c) => seq![id_field(c.entity_id), FieldView::Text(c.text@)],
        ServerMessage::ShoutChat(c) => seq![FieldView::Text(c.name@), FieldView::Text(c.text@)],
        ServerMessage::AnnounceChat(c) => seq![
            FieldView::OptionalText(option_text_view(c.name)),
            FieldView::Text(c.text@),
        ],
        ServerMessage::Whisper(c) => seq![FieldView::Text(c.from@), FieldView::Text(c.text@)],
        ServerMessage::UpdateSpeed(u) => seq![
            id_field(u.entity_id),
            FieldView::U32(u.run_speed),
            FieldView::U32(u.passive_attack_speed),
        ],
    }
}

/// A server message can be encoded: its texts hold no zero byte and its
/// lists fit their count.
pub open spec fn server_message_wf(m: ServerMessage) -> bool {
    fields_wf(server_fields(m))
}

/// The fields of the message that decoded fields stand for, or `None` when
/// they hold a value no message has. A connect reply keeps its sequence
/// number only on success; any other result code is a failure.
pub open spec fn server_canonical(command: u16, fv: Seq<FieldView>) -> Option<Seq<FieldView>> {
    if command == SERVER_CONNECT_REPLY {
        if fv[0] == FieldView::U8(0) {
            Some(seq![fv[0], fv[1], FieldView::U32(0)])
        } else {
            Some(seq![FieldView::U8(1), FieldView::U32(0), FieldView::U32(0)])
        }
    } else if command == SERVER_MOVE_ENTITY_WITH_MOVE_MODE {
        if valid_move_mode(fv[6]) {
            Some(fv)
        } else {
            None
        }
    } else if command == SERVER_SPAWN_ENTITY_NPC {
        if valid_move_mode(fv[11]) {
            Some(fv)
        } else {
            None
        }
    } else if command == SERVER_SPAWN_ENTITY_MONSTER {
        if valid_move_mode(fv[9]) {
            Some(fv)
        } else {
            None
        }
    } else {
        Some(fv)
    }
}

/// What a packet from the server decodes to: the fields of its message.
pub open spec fn spec_decode_server(command: u16, data: Seq<u8>) -> Result<
    Seq<FieldView>,
    DecodeError,
> {
    match server_schema(command) {
        None => Err(DecodeError::UnknownCommand(command)),
        Some(ks) => match decode_payload(ks, data) {
            Err(e) => Err(e),
            Ok(fv) => match server_canonical(command, fv) {
                Some(cf) => Ok(cf),
                None => Err(DecodeError::Malformed),
            },
        },
    }
}

// ---------------------------------------------------------------------------
// Reading values out of decoded fields.
fn u8_at(fs: &Vec<Field>, i: usize) -> (x: u8)
    requires
        i < fs@.len(),
        kind_of(fs@[i as int]@) == FieldKind::U8,
    ensures
        fs@[i as int]@ == FieldView::U8(x),
{
    match &fs[i] {
        Field::U8(x) => *x,
        _ => 0,
    }
}

fn u16_at(fs: &Vec<Field>, i: usize) -> (x: u16)
    requires
        i < fs@.len(),
        kind_of(fs@[i as int]@) == FieldKind::U16,
    ensures
        fs@[i as int]@ == FieldView::U16(x),
{
    match &fs[i] {
        Field::U16(x) => *x,
        _ => 0,
    }
}

fn u32_at(fs: &Vec<Field>, i: usize) -> (x: u32)
    requires
        i < fs@.len(),
        kind_of(fs@[i as int]@) == FieldKind::U32,
    ensures
        fs@[i as int]@ == FieldView::U32(x),
{
    match &fs[i] {
        Field::U32(x) => *x,
        _ => 0,
    }
}

fn u64_at(fs: &Vec<Field>, i: usize) -> (x: u64)
    requires
        i < fs@.len(),
        kind_of(fs@[i as int]@) == FieldKind::U64,
    ensures
        fs@[i as int]@ == FieldView::U64(x),
{
    match &fs[i] {
        Field::U64(x) => *x,
        _ => 0,
    }
}

fn text_at(fs: &Vec<Field>, i: usize) -> (t: String)
    requires
        i < fs@.len(),
        kind_of(fs@[i as int]@) == FieldKind::Text,
    ensures
        fs@[i as int]@ == FieldView::Text(t@),
{
    match &fs[i] {
        Field::Text(t) => t.clone(),
        _ => String::new(),
    }
}

fn optional_text_at(fs: &Vec<Field>, i: usize) -> (t: Option<String>)
    requires
        i < fs@.len(),
        kind_of(fs@[i as int]@) == FieldKind::OptionalText,
    ensures
        fs@[i as int]@ == FieldView::OptionalText(option_text_view(t)),
{
    match &fs[i] {
        Field::OptionalText(Some(t)) => Some(t.clone()),
        _ => None,
    }
}

fn target_at(fs: &Vec<Field>, i: usize) -> (t: Option<ClientEntityId>)
    requires
        i < fs@.len(),
        kind_of(fs@[i as int]@) == FieldKind::OptionalU16,
    ensures
        fs@[i as int]@ == target_field(t),
{
    match &fs[i] {
        Field::OptionalU16(Some(x)) => Some(ClientEntityId(*x)),
        _ => None,
    }
}

fn entity_ids_at(fs: &Vec<Field>, i: usize) -> (ids: Vec<ClientEntityId>)
    requires
        i < fs@.len(),
        kind_of(fs@[i as int]@) == FieldKind::U16List,
    ensures
        fs@[i as int]@ == FieldView::U16List(entity_ids_view(ids@)),
{
    let mut ids: Vec<ClientEntityId> = Vec::new();
    match &fs[i] {
        Field::U16List(v) => {
            let mut j: usize = 0;
            while j < v.len()
                invariant
                    j <= v@.len(),
                    ids@.len() == j,
                    forall|k: int| 0 <= k < j ==> #[trigger] ids@[k].0 == v@[k],
                decreases v@.len() - j,
            {
                ids.push(ClientEntityId(v[j]));
                j += 1;
            }
            assert(entity_ids_view(ids@) =~= v@);
        },
        _ => {},
    }
    ids
}

fn move_mode_from_code(code: u8) -> (r: Option<MoveMode>)
    ensures
        r is Some <==> code <= 2,
        r matches Some(mode) ==> move_mode_code(mode) == code,
{
    if code == 0 {
        Some(MoveMode::Walk)
    } else if code == 1 {
        Some(MoveMode::Run)
    } else if code == 2 {
        Some(MoveMode::Drive)
    } else {
        None
    }
}

fn server_schema_of(command: u16) -> (r: Option<Vec<FieldKind>>)
    ensures
        match server_schema(command) {
            Some(ks) => r matches Some(v) && v@ == ks,
            None => r is None,
        },
{
    let r = if command == SERVER_CONNECT_REPLY {
        Some(vec![FieldKind::U8, FieldKind::U32, FieldKind::U32])
    } else if command == SERVER_JOIN_ZONE {
        Some(
            vec![
                FieldKind::U16,
                FieldKind::U64,
                FieldKind::U32,
                FieldKind::U32,
                FieldKind::U32,
                FieldKind::U64,
            ],
        )
    } else if command == SERVER_MOVE_ENTITY || command == SERVER_MOVE_ENTITY_WITH_MOVE_MODE {
        let mut v = vec![
            FieldKind::U16,
            FieldKind::OptionalU16,
            FieldKind::U16,
            FieldKind::U32,
            FieldKind::U32,
            FieldKind::U16,
        ];
        if command == SERVER_MOVE_ENTITY_WITH_MOVE_MODE {
            v.push(FieldKind::U8);
        }
        Some(v)
    } else if command == SERVER_SPAWN_ENTITY_NPC {
        Some(
            vec![
                FieldKind::U16,
                FieldKind::U16,
                FieldKind::U16,
                FieldKind::U32,
                FieldKind::U32,
                FieldKind::U32,
                FieldKind::U32,
                FieldKind::U32,
                FieldKind::U32,
                FieldKind::U32,
                FieldKind::OptionalU16,
                FieldKind::U8,
            ],
        )
    } else if command == SERVER_SPAWN_ENTITY_MONSTER {
        Some(
            vec![
                FieldKind::U16,
                FieldKind::U16,
                FieldKind::U32,
                FieldKind::U32,
                FieldKind::U32,
                FieldKind::U32,
                FieldKind::U32,
                FieldKind::U32,
                FieldKind::OptionalU16,
                FieldKind::U8,
            ],
        )
    } else if command == SERVER_REMOVE_ENTITIES {
        Some(vec![FieldKind::U16List])
    } else if command == SERVER_TELEPORT {
        Some(
            vec![
                FieldKind::U16,
                FieldKind::U16,
                FieldKind::U32,
                FieldKind::U32,
                FieldKind::U8,
                FieldKind::U8,
            ],
        )
    } else if command == SERVER_LOCAL_CHAT {
        Some(vec![FieldKind::U16, FieldKind::Text])
    } else if command == SERVER_SHOUT_CHAT || command == SERVER_WHISPER {
        Some(vec![FieldKind::Text, FieldKind::Text])
    } else if command == SERVER_ANNOUNCE_CHAT {
        Some(vec![FieldKind::OptionalText, FieldKind::Text])
    } else if command == SERVER_UPDATE_SPEED {
        Some(vec![FieldKind::U16, FieldKind::U32, FieldKind::U32])
    } else {
        None
    };
    proof {
        if r is Some {
            assert(r->Some_0@ =~= server_schema(command)->Some_0);
        }
    }
    r
}


/// Builds the message that fields read against a command's schema stand for.
fn server_message_from_fields(command: u16, fs: &Vec<Field>) -> (r: Result<
    ServerMessage,
    DecodeError,
>)
    requires
        server_schema(command) == Some(kinds_of(fields_view(fs@))),
    ensures
        match server_canonical(command, fields_view(fs@)) {
            Some(cf) => r matches Ok(m) && server_command(m) == command && server_fields(m) == cf,
            None => r == Err::<ServerMessage, DecodeError>(DecodeError::Malformed),
        },
{
    let ghost fv = fields_view(fs@);
    let ghost ks = server_schema(command)->Some_0;
    assert(fv.len() == ks.len());
    assert(forall|i: int| 0 <= i < fv.len() ==> kind_of(#[trigger] fs@[i]@) == ks[i]);
    if command == SERVER_CONNECT_REPLY {
        if u8_at(fs, 0) == 0 {
            let m = ServerMessage::ConnectionResponse(
                Ok(ConnectionResponse { packet_sequence_id: u32_at(fs, 1) }),
            );
            assert(server_fields(m) =~= seq![fv[0], fv[1], FieldView::U32(0)]);
            Ok(m)
        } else {
            let m = ServerMessage::ConnectionResponse(Err(ConnectionRequestError::Failed));
            assert(server_fields(m) =~= seq![
                FieldView::U8(1),
                FieldView::U32(0),
                FieldView::U32(0),
            ]);
            Ok(m)
        }
    } else if command == SERVER_JOIN_ZONE {
        let m = ServerMessage::JoinZone(
            JoinZoneResponse {
                entity_id: ClientEntityId(u16_at(fs, 0)),
                experience_points: u64_at(fs, 1),
                team: u32_at(fs, 2),
                health_points: u32_at(fs, 3),
                mana_points: u32_at(fs, 4),
                world_ticks: u64_at(fs, 5),
            },
        );
        assert(server_fields(m) =~= fv);
        Ok(m)
    } else if command == SERVER_MOVE_ENTITY || command == SERVER_MOVE_ENTITY_WITH_MOVE_MODE {
        let move_mode = if command == SERVER_MOVE_ENTITY_WITH_MOVE_MODE {
            match move_mode_from_code(u8_at(fs, 6)) {
                Some(mode) => Some(mode),
                None => return Err(DecodeError::Malformed),
            }
        } else {
            None
        };
        let m = ServerMessage::MoveEntity(
            MoveEntity {
                entity_id: ClientEntityId(u16_at(fs, 0)),
                target_entity_id: target_at(fs, 1),
                distance: u16_at(fs, 2),
                x: u32_at(fs, 3),
                y: u32_at(fs, 4),
                z: u16_at(fs, 5),
                move_mode,
            },
        );
        assert(server_fields(m) =~= fv);
        Ok(m)
    } else if command == SERVER_SPAWN_ENTITY_NPC {
        let move_mode = match move_mode_from_code(u8_at(fs, 11)) {
            Some(mode) => mode,
            None => return Err(DecodeError::Malformed),
        };
        let m = ServerMessage::SpawnEntityNpc(
            SpawnEntityNpc {
                entity_id: ClientEntityId(u16_at(fs, 0)),
                npc_id: u16_at(fs, 1),
                quest_index: u16_at(fs, 2),
                direction: u32_at(fs, 3),
                position_x: u32_at(fs, 4),
                position_y: u32_at(fs, 5),
                destination_x: u32_at(fs, 6),
                destination_y: u32_at(fs, 7),
                team: u32_at(fs, 8),
                health_points: u32_at(fs, 9),
                target_entity_id: target_at(fs, 10),
                move_mode,
            },
        );
        assert(server_fields(m) =~= fv);
        Ok(m)
    } else if command == SERVER_SPAWN_ENTITY_MONSTER {
        let move_mode = match move_mode_from_code(u8_at(fs, 9)) {
            Some(mode) => mode,
            None => return Err(DecodeError::Malformed),
        };
        let m = ServerMessage::SpawnEntityMonster(
            SpawnEntityMonster {
                entity_id: ClientEntityId(u16_at(fs, 0)),
                npc_id: u16_at(fs, 1),
                position_x: u32_at(fs, 2),
                position_y: u32_at(fs, 3),
                destination_x: u32_at(fs, 4),
                destination_y: u32_at(fs, 5),
                team: u32_at(fs, 6),
                health_points: u32_at(fs, 7),
                target_entity_id: target_at(fs, 8),
                move_mode,
            },
        );
        assert(server_fields(m) =~= fv);
        Ok(m)
    } else if command == SERVER_REMOVE_ENTITIES {
        let m = ServerMessage::RemoveEntities(RemoveEntities { entity_ids: entity_ids_at(fs, 0) });
        assert(server_fields(m) =~= fv);
        Ok(m)
    } else if command == SERVER_TELEPORT {
        let m = ServerMessage::Teleport(
            Teleport {
                entity_id: ClientEntityId(u16_at(fs, 0)),
                zone_id: u16_at(fs, 1),
                x: u32_at(fs, 2),
                y: u32_at(fs, 3),
                run_mode: u8_at(fs, 4),
                ride_mode: u8_at(fs, 5),
            },
        );
        assert(server_fields(m) =~= fv);
        Ok(m)
    } else if command == SERVER_LOCAL_CHAT {
        let m = ServerMessage::LocalChat(
            LocalChat { entity_id: ClientEntityId(u16_at(fs, 0)), text: text_at(fs, 1) },
        );
        assert(server_fields(m) =~= fv);
        Ok(m)
    } else if command == SERVER_SHOUT_CHAT {
        let m = ServerMessage::ShoutChat(ShoutChat { name: text_at(fs, 0), text: text_at(fs, 1) });
        assert(server_fields(m) =~= fv);
        Ok(m)
    } else if command == SERVER_WHISPER {
        let m = ServerMessage::Whisper(Whisper { from: text_at(fs, 0), text: text_at(fs, 1) });
        assert(server_fields(m) =~= fv);
        Ok(m)
    } else if command == SERVER_ANNOUNCE_CHAT {
        let m = ServerMessage::AnnounceChat(
            AnnounceChat { name: optional_text_at(fs, 0), text: text_at(fs, 1) },
        );
        assert(server_fields(m) =~= fv);
        Ok(m)
    } else {
        let m = ServerMessage::UpdateSpeed(
            UpdateSpeed {
                entity_id: ClientEntityId(u16_at(fs, 0)),
                run_speed: u32_at(fs, 1),
                passive_attack_speed: u32_at(fs, 2),
            },
        );
        assert(server_fields(m) =~= fv);
        Ok(m)
    }
}

/// Decodes a packet from the server into the message it carries.
///
/// The result is exactly what [`spec_decode_server`] says: an unknown command
/// is `UnknownCommand`, a payload that does not match the command's layout is
/// the error its reading met, and otherwise the message whose fields are the
/// ones read.
pub fn decode_server_message(packet: &Packet) -> (r: Result<ServerMessage, DecodeError>)
    ensures
        match spec_decode_server(packet.command, packet.data@) {
            Ok(fv) => r matches Ok(m) && server_command(m) == packet.command && server_fields(m)
                == fv,
            Err(e) => r == Err::<ServerMessage, DecodeError>(e),
        },
{
    let schema = match server_schema_of(packet.command) {
        Some(schema) => schema,
        None => return Err(DecodeError::UnknownCommand(packet.command)),
    };
    let fs = match read_payload(schema.as_slice(), packet.data.as_slice()) {
        Ok(fs) => fs,
        Err(e) => return Err(e),
    };
    proof {
        lemma_parsed_kinds(schema@, packet.data@);
    }
    server_message_from_fields(packet.command, &fs)
}


// ---------------------------------------------------------------------------
// Encoding messages into packets.
fn id_value(id: ClientEntityId) -> (f: Field)
    ensures
        f@ == id_field(id),
{
    Field::U16(id.0)
}

fn target_value(target: Option<ClientEntityId>) -> (f: Field)
    ensures
        f@ == target_field(target),
{
    match target {
        Some(id) => Field::OptionalU16(Some(id.0)),
        None => Field::OptionalU16(None),
    }
}

fn move_mode_value(mode: MoveMode) -> (f: Field)
    ensures
        f@ == FieldView::U8(move_mode_code(mode)),
{
    match mode {
        MoveMode::Walk => Field::U8(0),
        MoveMode::Run => Field::U8(1),
        MoveMode::Drive => Field::U8(2),
    }
}

fn entity_ids_value(ids: &Vec<ClientEntityId>) -> (f: Field)
    ensures
        f@ == FieldView::U16List(entity_ids_view(ids@)),
{
    let mut v: Vec<u16> = Vec::new();
    let mut j: usize = 0;
    while j < ids.len()
        invariant
            j <= ids@.len(),
            v@.len() == j,
            forall|k: int| 0 <= k < j ==> #[trigger] v@[k] == ids@[k].0,
        decreases ids@.len() - j,
    {
        v.push(ids[j].0);
        j += 1;
    }
    assert(v@ =~= entity_ids_view(ids@));
    Field::U16List(v)
}

fn optional_text_value(t: &Option<String>) -> (f: Field)
    ensures
        f@ == FieldView::OptionalText(option_text_view(*t)),
{
    match t {
        Some(t) => Field::OptionalText(Some(t.clone())),
        None => Field::OptionalText(None),
    }
}

/// The command that carries a server message.
pub fn server_command_of(m: &ServerMessage) -> (c: u16)
    ensures
        c == server_command(*m),
{
    match m {
        ServerMessage::ConnectionResponse(_) => SERVER_CONNECT_REPLY,
        ServerMessage::JoinZone(_) => SERVER_JOIN_ZONE,
        ServerMessage::MoveEntity(mv) => if mv.move_mode.is_some() {
            SERVER_MOVE_ENTITY_WITH_MOVE_MODE
        } else {
            SERVER_MOVE_ENTITY
        },
        ServerMessage::SpawnEntityNpc(_) => SERVER_SPAWN_ENTITY_NPC,
        ServerMessage::SpawnEntityMonster(_) => SERVER_SPAWN_ENTITY_MONSTER,
        ServerMessage::RemoveEntities(_) => SERVER_REMOVE_ENTITIES,
        ServerMessage::Teleport(_) => SERVER_TELEPORT,
        ServerMessage::LocalChat(_) => SERVER_LOCAL_CHAT,
        ServerMessage::ShoutChat(_) => SERVER_SHOUT_CHAT,
        ServerMessage::AnnounceChat(_) => SERVER_ANNOUNCE_CHAT,
        ServerMessage::Whisper(_) => SERVER_WHISPER,
        ServerMessage::UpdateSpeed(_) => SERVER_UPDATE_SPEED,
    }
}

fn server_message_fields(m: &ServerMessage) -> (fs: Vec<Field>)
    ensures
        fields_view(fs@) == server_fields(*m),
{
    let fs = match m {
        ServerMessage::ConnectionResponse(Ok(r)) => vec![
            Field::U8(0),
            Field::U32(r.packet_sequence_id),
            Field::U32(0),
        ],
        ServerMessage::ConnectionResponse(Err(_)) => vec![
            Field::U8(1),
            Field::U32(0),
            Field::U32(0),
        ],
        ServerMessage::JoinZone(j) => vec![
            id_value(j.entity_id),
            Field::U64(j.experience_points),
            Field::U32(j.team),
            Field::U32(j.health_points),
            Field::U32(j.mana_points),
            Field::U64(j.world_ticks),
        ],
        ServerMessage::MoveEntity(mv) => {
            let mut fs = vec![
                id_value(mv.entity_id),
                target_value(mv.target_entity_id),
                Field::U16(mv.distance),
                Field::U32(mv.x),
                Field::U32(mv.y),
                Field::U16(mv.z),
            ];
            match mv.move_mode {
                Some(mode) => fs.push(move_mode_value(mode)),
                None => {},
            }
            fs
        },
        ServerMessage::SpawnEntityNpc(n) => vec![
            id_value(n.entity_id),
            Field::U16(n.npc_id),
            Field::U16(n.quest_index),
            Field::U32(n.direction),
            Field::U32(n.position_x),
            Field::U32(n.position_y),
            Field::U32(n.destination_x),
            Field::U32(n.destination_y),
            Field::U32(n.team),
            Field::U32(n.health_points),
            target_value(n.target_entity_id),
            move_mode_value(n.move_mode),
        ],
        ServerMessage::SpawnEntityMonster(n) => vec![
            id_value(n.entity_id),
            Field::U16(n.npc_id),
            Field::U32(n.position_x),
            Field::U32(n.position_y),
            Field::U32(n.destination_x),
            Field::U32(n.destination_y),
            Field::U32(n.team),
            Field::U32(n.health_points),
            target_value(n.target_entity_id),
            move_mode_value(n.move_mode),
        ],
        ServerMessage::RemoveEntities(r) => vec![entity_ids_value(&r.entity_ids)],
        ServerMessage::Teleport(t) => vec![
            id_value(t.entity_id),
            Field::U16(t.zone_id),
            Field::U32(t.x),
            Field::U32(t.y),
            Field::U8(t.run_mode),
            Field::U8(t.ride_mode),
        ],
        ServerMessage::LocalChat(c) => vec![id_value(c.entity_id), Field::Text(c.text.clone())],
        ServerMessage::ShoutChat(c) => vec![
            Field::Text(c.name.clone()),
            Field::Text(c.text.clone()),
        ],
        ServerMessage::AnnounceChat(c) => vec![
            optional_text_value(&c.name),
            Field::Text(c.text.clone()),
        ],
        ServerMessage::Whisper(c) => vec![Field::Text(c.from.clone()), Field::Text(c.text.clone())],
        ServerMessage::UpdateSpeed(u) => vec![
            id_value(u.entity_id),
            Field::U32(u.run_speed),
            Field::U32(u.passive_attack_speed),
        ],
    };
    assert(fields_view(fs@) =~= server_fields(*m));
    fs
}

/// Encodes a server message into the packet that carries it. It fails exactly
/// when the message cannot be encoded, with the error of a field that cannot.
pub fn encode_server_message(m: &ServerMessage) -> (r: Result<Packet, EncodeError>)
    ensures
        r is Ok <==> server_message_wf(*m),
        r matches Ok(p) ==> p.command == server_command(*m) && p.data@ == encode_fields(
            server_fields(*m),
        ),
        r matches Err(e) ==> exists|i: int|
            0 <= i < server_fields(*m).len() && field_error(#[trigger] server_fields(*m)[i])
                == Some(e),
{
    let fs = server_message_fields(m);
    match encode_payload(&fs) {
        Ok(data) => Ok(Packet { command: server_command_of(m), data }),
        Err(e) => {
            proof {
                let i = choose|i: int| 0 <= i < fs@.len() && field_error(#[trigger] fs@[i]@) == Some(e);
                assert(server_fields(*m)[i] == fs@[i]@);
            }
            Err(e)
        },
    }
}

// ---------------------------------------------------------------------------
// Laws of the server table.
proof fn lemma_server_layout(m: ServerMessage)
    ensures
        server_schema(server_command(m)) == Some(kinds_of(server_fields(m))),
        server_canonical(server_command(m), server_fields(m)) == Some(server_fields(m)),
{
    let fv = server_fields(m);
    assert(kinds_of(fv) =~= server_schema(server_command(m))->Some_0);
    if let ServerMessage::ConnectionResponse(Ok(_)) = m {
        assert(seq![fv[0], fv[1], FieldView::U32(0)] =~= fv);
    }
}

/// Every server message that can be encoded decodes back to itself: the
/// packet its encoding makes yields exactly its fields.
pub proof fn lemma_server_message_round_trip(m: ServerMessage)
    requires
        server_message_wf(m),
    ensures
        spec_decode_server(server_command(m), encode_fields(server_fields(m))) == Ok::<
            Seq<FieldView>,
            DecodeError,
        >(server_fields(m)),
{
    lemma_server_layout(m);
    lemma_payload_round_trip(server_fields(m));
}

/// A server packet cut short at any point decodes to `Truncated`.
pub proof fn lemma_server_message_truncated(m: ServerMessage, k: int)
    requires
        server_message_wf(m),
        0 <= k < encode_fields(server_fields(m)).len(),
    ensures
        spec_decode_server(server_command(m), encode_fields(server_fields(m)).take(k)) == Err::<
            Seq<FieldView>,
            DecodeError,
        >(DecodeError::Truncated),
{
    lemma_server_layout(m);
    lemma_payload_truncated(server_fields(m), k);
}


// ---------------------------------------------------------------------------
// The client's side of the table.
/// The payload layout of each command the client sends.
pub open spec fn client_schema(command: u16) -> Option<Seq<FieldKind>> {
    if command == CLIENT_CONNECT_REQUEST {
        Some(seq![FieldKind::U32, FieldKind::Text])
    } else if command == CLIENT_JOIN_ZONE_REQUEST {
        Some(seq![FieldKind::U8, FieldKind::U16])
    } else if command == CLIENT_MOVE {
        Some(seq![FieldKind::OptionalU16, FieldKind::U32, FieldKind::U32, FieldKind::U16])
    } else if command == CLIENT_CHAT {
        Some(seq![FieldKind::Text])
    } else {
        None
    }
}

/// The command that carries a client message.
pub open spec fn client_command(m: ClientMessage) -> u16 {
    match m {
        ClientMessage::ConnectionRequest(_) => CLIENT_CONNECT_REQUEST,
        ClientMessage::JoinZoneRequest => CLIENT_JOIN_ZONE_REQUEST,
        ClientMessage::Move(_) => CLIENT_MOVE,
        ClientMessage::Chat(_) => CLIENT_CHAT,
    }
}

/// The payload fields of a client message. A request to join the zone sends
/// a weight rate and a height of zero.
pub open spec fn client_fields(m: ClientMessage) -> Seq<FieldView> {
    match m {
        ClientMessage::ConnectionRequest(r) => seq![
            FieldView::U32(r.login_token),
            FieldView::Text(r.password_md5@),
        ],
        ClientMessage::JoinZoneRequest => seq![FieldView::U8(0), FieldView::U16(0)],
        ClientMessage::Move(mv) => seq![
            target_field(mv.target_entity_id),
            FieldView::U32(mv.x),
            FieldView::U32(mv.y),
            FieldView::U16(mv.z),
        ],
        ClientMessage::Chat(text) => seq![FieldView::Text(text@)],
    }
}

pub open spec fn client_message_wf(m: ClientMessage) -> bool {
    fields_wf(client_fields(m))
}

/// The fields of the message that decoded fields stand for: a request to
/// join the zone is the same whatever weight rate and height it sends.
pub open spec fn client_canonical(command: u16, fv: Seq<FieldView>) -> Seq<FieldView> {
    if command == CLIENT_JOIN_ZONE_REQUEST {
        seq![FieldView::U8(0), FieldView::U16(0)]
    } else {
        fv
    }
}

/// What a packet from the client decodes to: the fields of its message.
pub open spec fn spec_decode_client(command: u16, data: Seq<u8>) -> Result<
    Seq<FieldView>,
    DecodeError,
> {
    match client_schema(command) {
        None => Err(DecodeError::UnknownCommand(command)),
        Some(ks) => match decode_payload(ks, data) {
            Err(e) => Err(e),
            Ok(fv) => Ok(client_canonical(command, fv)),
        },
    }
}

fn client_schema_of(command: u16) -> (r: Option<Vec<FieldKind>>)
    ensures
        match client_schema(command) {
            Some(ks) => r matches Some(v) && v@ == ks,
            None => r is None,
        },
{
    let r = if command == CLIENT_CONNECT_REQUEST {
        Some(vec![FieldKind::U32, FieldKind::Text])
    } else if command == CLIENT_JOIN_ZONE_REQUEST {
        Some(vec![FieldKind::U8, FieldKind::U16])
    } else if command == CLIENT_MOVE {
        Some(vec![FieldKind::OptionalU16, FieldKind::U32, FieldKind::U32, FieldKind::U16])
    } else if command == CLIENT_CHAT {
        Some(vec![FieldKind::Text])
    } else {
        None
    };
    proof {
        if r is Some {
            assert(r->Some_0@ =~= client_schema(command)->Some_0);
        }
    }
    r
}

fn client_message_from_fields(command: u16, fs: &Vec<Field>) -> (m: ClientMessage)
    requires
        client_schema(command) == Some(kinds_of(fields_view(fs@))),
    ensures
        client_command(m) == command,
        client_fields(m) == client_canonical(command, fields_view(fs@)),
{
    let ghost fv = fields_view(fs@);
    let ghost ks = client_schema(command)->Some_0;
    assert(fv.len() == ks.len());
    assert(forall|i: int| 0 <= i < fv.len() ==> kind_of(#[trigger] fs@[i]@) == ks[i]);
    if command == CLIENT_CONNECT_REQUEST {
        let m = ClientMessage::ConnectionRequest(
            ConnectionRequest { login_token: u32_at(fs, 0), password_md5: text_at(fs, 1) },
        );
        assert(client_fields(m) =~= fv);
        m
    } else if command == CLIENT_JOIN_ZONE_REQUEST {
        ClientMessage::JoinZoneRequest
    } else if command == CLIENT_MOVE {
        let m = ClientMessage::Move(
            MoveRequest {
                target_entity_id: target_at(fs, 0),
                x: u32_at(fs, 1),
                y: u32_at(fs, 2),
                z: u16_at(fs, 3),
            },
        );
        assert(client_fields(m) =~= fv);
        m
    } else {
        let m = ClientMessage::Chat(text_at(fs, 0));
        assert(client_fields(m) =~= fv);
        m
    }
}

/// Decodes a packet from the client into the message it carries, exactly as
/// [`spec_decode_client`] says.
pub fn decode_client_message(packet: &Packet) -> (r: Result<ClientMessage, DecodeError>)
    ensures
        match spec_decode_client(packet.command, packet.data@) {
            Ok(fv) => r matches Ok(m) && client_command(m) == packet.command && client_fields(m)
                == fv,
            Err(e) => r == Err::<ClientMessage, DecodeError>(e),
        },
{
    let schema = match client_schema_of(packet.command) {
        Some(schema) => schema,
        None => return Err(DecodeError::UnknownCommand(packet.command)),
    };
    let fs = match read_payload(schema.as_slice(), packet.data.as_slice()) {
        Ok(fs) => fs,
        Err(e) => return Err(e),
    };
    proof {
        lemma_parsed_kinds(schema@, packet.data@);
    }
    Ok(client_message_from_fields(packet.command, &fs))
}

/// The command that carries a client message.
pub fn client_command_of(m: &ClientMessage) -> (c: u16)
    ensures
        c == client_command(*m),
{
    match m {
        ClientMessage::ConnectionRequest(_) => CLIENT_CONNECT_REQUEST,
        ClientMessage::JoinZoneRequest => CLIENT_JOIN_ZONE_REQUEST,
        ClientMessage::Move(_) => CLIENT_MOVE,
        ClientMessage::Chat(_) => CLIENT_CHAT,
    }
}

fn client_message_fields(m: &ClientMessage) -> (fs: Vec<Field>)
    ensures
        fields_view(fs@) == client_fields(*m),
{
    let fs = match m {
        ClientMessage::ConnectionRequest(r) => vec![
            Field::U32(r.login_token),
            Field::Text(r.password_md5.clone()),
        ],
        ClientMessage::JoinZoneRequest => vec![Field::U8(0), Field::U16(0)],
        ClientMessage::Move(mv) => vec![
            target_value(mv.target_entity_id),
            Field::U32(mv.x),
            Field::U32(mv.y),
            Field::U16(mv.z),
        ],
        ClientMessage::Chat(text) => vec![Field::Text(text.clone())],
    };
    assert(fields_view(fs@) =~= client_fields(*m));
    fs
}

/// Encodes a client message into the packet that carries it. It fails exactly
/// when one of its texts holds a zero byte.
pub fn encode_client_message(m: &ClientMessage) -> (r: Result<Packet, EncodeError>)
    ensures
        r is Ok <==> client_message_wf(*m),
        r matches Ok(p) ==> p.command == client_command(*m) && p.data@ == encode_fields(
            client_fields(*m),
        ),
        r matches Err(e) ==> e == EncodeError::ZeroByteInText,
{
    let fs = client_message_fields(m);
    match encode_payload(&fs) {
        Ok(data) => Ok(Packet { command: client_command_of(m), data }),
        Err(e) => {
            proof {
                let i = choose|i: int| 0 <= i < fs@.len() && field_error(#[trigger] fs@[i]@) == Some(e);
                assert(client_fields(*m)[i] == fs@[i]@);
            }
            Err(e)
        },
    }
}

proof fn lemma_client_layout(m: ClientMessage)
    ensures
        client_schema(client_command(m)) == Some(kinds_of(client_fields(m))),
        client_canonical(client_command(m), client_fields(m)) == client_fields(m),
{
    assert(kinds_of(client_fields(m)) =~= client_schema(client_command(m))->Some_0);
}

/// Every client message that can be encoded decodes back to itself.
pub proof fn lemma_client_message_round_trip(m: ClientMessage)
    requires
        client_message_wf(m),
    ensures
        spec_decode_client(client_command(m), encode_fields(client_fields(m))) == Ok::<
            Seq<FieldView>,
            DecodeError,
        >(client_fields(m)),
{
    lemma_client_layout(m);
    lemma_payload_round_trip(client_fields(m));
}

/// A client packet cut short at any point decodes to `Truncated`.
pub proof fn lemma_client_message_truncated(m: ClientMessage, k: int)
    requires
        client_message_wf(m),
        0 <= k < encode_fields(client_fields(m)).len(),
    ensures
        spec_decode_client(client_command(m), encode_fields(client_fields(m)).take(k)) == Err::<
            Seq<FieldView>,
            DecodeError,
        >(DecodeError::Truncated),
{
    lemma_client_layout(m);
    lemma_payload_truncated(client_fields(m), k);
}

} // verus!
