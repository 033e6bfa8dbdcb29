use rose_offline_client::codec::{
    decode_client_message, decode_server_message, encode_client_message, encode_server_message,
    CLIENT_CHAT, SERVER_CONNECT_REPLY, SERVER_MOVE_ENTITY, SERVER_MOVE_ENTITY_WITH_MOVE_MODE,
};
use rose_offline_client::field::{DecodeError, EncodeError};
use rose_offline_client::messages::{
    AnnounceChat, ClientEntityId, ClientMessage, ConnectionRequest, ConnectionRequestError,
    ConnectionResponse, JoinZoneResponse, LocalChat, MoveEntity, MoveMode, MoveRequest,
    RemoveEntities, ServerMessage, ShoutChat, SpawnEntityMonster, SpawnEntityNpc, Teleport,
    UpdateSpeed, Whisper,
};
use rose_offline_client::packet::Packet;

fn sample_server_messages() -> Vec<ServerMessage> {
    vec![
        ServerMessage::ConnectionResponse(Ok(ConnectionResponse { packet_sequence_id: 0x1234_5678 })),
        ServerMessage::ConnectionResponse(Err(ConnectionRequestError::Failed)),
        ServerMessage::JoinZone(JoinZoneResponse {
            entity_id: ClientEntityId(17),
            experience_points: 0x0102_0304_0506_0708,
            team: 2,
            health_points: 950,
            mana_points: 300,
            world_ticks: u64::MAX,
        }),
        ServerMessage::MoveEntity(MoveEntity {
            entity_id: ClientEntityId(5),
            target_entity_id: Some(ClientEntityId(9)),
            distance: 120,
            x: 5200.5f32.to_bits(),
            y: 5100.25f32.to_bits(),
            z: 3,
            move_mode: None,
        }),
        ServerMessage::MoveEntity(MoveEntity {
            entity_id: ClientEntityId(5),
            target_entity_id: None,
            distance: 0,
            x: 1.0f32.to_bits(),
            y: (-2.0f32).to_bits(),
            z: 0,
            move_mode: Some(MoveMode::Drive),
        }),
        ServerMessage::SpawnEntityNpc(SpawnEntityNpc {
            entity_id: ClientEntityId(300),
            npc_id: 1001,
            quest_index: 7,
            direction: 90.0f32.to_bits(),
            position_x: 10.0f32.to_bits(),
            position_y: 20.0f32.to_bits(),
            destination_x: 30.0f32.to_bits(),
            destination_y: 40.0f32.to_bits(),
            team: 1,
            health_points: 100,
            target_entity_id: None,
            move_mode: MoveMode::Walk,
        }),
        ServerMessage::SpawnEntityMonster(SpawnEntityMonster {
            entity_id: ClientEntityId(301),
            npc_id: 2,
            position_x: 1,
            position_y: 2,
            destination_x: 3,
            destination_y: 4,
            team: 100,
            health_points: 55,
            target_entity_id: Some(ClientEntityId(17)),
            move_mode: MoveMode::Run,
        }),
        ServerMessage::RemoveEntities(RemoveEntities {
            entity_ids: vec![ClientEntityId(1), ClientEntityId(4095), ClientEntityId(65535)],
        }),
        ServerMessage::RemoveEntities(RemoveEntities { entity_ids: vec![] }),
        ServerMessage::Teleport(Teleport {
            entity_id: ClientEntityId(17),
            zone_id: 22,
            x: 520000.0f32.to_bits(),
            y: 510000.0f32.to_bits(),
            run_mode: 1,
            ride_mode: 0,
        }),
        ServerMessage::LocalChat(LocalChat { entity_id: ClientEntityId(8), text: "hello there".to_string() }),
        ServerMessage::ShoutChat(ShoutChat { name: "Avatar".to_string(), text: "WTS sword".to_string() }),
        ServerMessage::AnnounceChat(AnnounceChat { name: Some("GM".to_string()), text: "restart soon".to_string() }),
        ServerMessage::AnnounceChat(AnnounceChat { name: None, text: "".to_string() }),
        ServerMessage::Whisper(Whisper { from: "Friend".to_string(), text: "héllo ✓ 🌹".to_string() }),
        ServerMessage::UpdateSpeed(UpdateSpeed {
            entity_id: ClientEntityId(17),
            run_speed: 425,
            passive_attack_speed: 30,
        }),
    ]
}

fn sample_client_messages() -> Vec<ClientMessage> {
    vec![
        ClientMessage::ConnectionRequest(ConnectionRequest {
            login_token: 0xdead_beef,
            password_md5: "5f4dcc3b5aa765d61d8327deb882cf99".to_string(),
        }),
        ClientMessage::JoinZoneRequest,
        ClientMessage::Move(MoveRequest { target_entity_id: None, x: 5200.0f32.to_bits(), y: 5300.0f32.to_bits(), z: 1 }),
        ClientMessage::Move(MoveRequest { target_entity_id: Some(ClientEntityId(44)), x: 0, y: 0, z: 0 }),
        ClientMessage::Chat("hi all".to_string()),
        ClientMessage::Chat(String::new()),
    ]
}

#[test]
fn server_messages_round_trip() {
    for message in sample_server_messages() {
        let packet = encode_server_message(&message).unwrap();
        let decoded = decode_server_message(&packet).unwrap();
        assert_eq!(decoded, message);
    }
}

#[test]
fn client_messages_round_trip() {
    for message in sample_client_messages() {
        let packet = encode_client_message(&message).unwrap();
        let decoded = decode_client_message(&packet).unwrap();
        assert_eq!(decoded, message);
    }
}

#[test]
fn truncated_server_packets_fail_at_every_offset() {
    for message in sample_server_messages() {
        let packet = encode_server_message(&message).unwrap();
        for k in 0..packet.data.len() {
            let cut = Packet { command: packet.command, data: packet.data[..k].to_vec() };
            assert_eq!(decode_server_message(&cut), Err(DecodeError::Truncated));
        }
    }
}

#[test]
fn truncated_client_packets_fail_at_every_offset() {
    for message in sample_client_messages() {
        let packet = encode_client_message(&message).unwrap();
        for k in 0..packet.data.len() {
            let cut = Packet { command: packet.command, data: packet.data[..k].to_vec() };
            assert_eq!(decode_client_message(&cut), Err(DecodeError::Truncated));
        }
    }
}

#[test]
fn chat_encodes_as_text_with_terminator() {
    let packet = encode_client_message(&ClientMessage::Chat("hi".to_string())).unwrap();
    assert_eq!(packet.command, CLIENT_CHAT);
    assert_eq!(packet.data, vec![b'h', b'i', 0]);
}

#[test]
fn join_zone_request_sends_zero_weight_and_height() {
    let packet = encode_client_message(&ClientMessage::JoinZoneRequest).unwrap();
    assert_eq!(packet.command, 0x753);
    assert_eq!(packet.data, vec![0, 0, 0]);
    let other = Packet { command: 0x753, data: vec![9, 1, 2] };
    assert_eq!(decode_client_message(&other), Ok(ClientMessage::JoinZoneRequest));
}

#[test]
fn connect_reply_layout_is_little_endian() {
    let message = ServerMessage::ConnectionResponse(Ok(ConnectionResponse { packet_sequence_id: 0x0403_0201 }));
    let packet = encode_server_message(&message).unwrap();
    assert_eq!(packet.command, SERVER_CONNECT_REPLY);
    assert_eq!(packet.data, vec![0, 1, 2, 3, 4, 0, 0, 0, 0]);
}

#[test]
fn connect_reply_with_any_failure_code_is_failed() {
    let packet = Packet { command: SERVER_CONNECT_REPLY, data: vec![3, 1, 2, 3, 4, 9, 9, 9, 9] };
    assert_eq!(
        decode_server_message(&packet),
        Ok(ServerMessage::ConnectionResponse(Err(ConnectionRequestError::Failed)))
    );
    let ok = Packet { command: SERVER_CONNECT_REPLY, data: vec![0, 7, 0, 0, 0, 9, 9, 9, 9] };
    assert_eq!(
        decode_server_message(&ok),
        Ok(ServerMessage::ConnectionResponse(Ok(ConnectionResponse { packet_sequence_id: 7 })))
    );
}

#[test]
fn move_mode_selects_the_command() {
    let mut mv = MoveEntity {
        entity_id: ClientEntityId(1),
        target_entity_id: None,
        distance: 2,
        x: 3,
        y: 4,
        z: 5,
        move_mode: None,
    };
    let packet = encode_server_message(&ServerMessage::MoveEntity(mv)).unwrap();
    assert_eq!(packet.command, SERVER_MOVE_ENTITY);
    assert_eq!(packet.data, vec![1, 0, 0, 2, 0, 3, 0, 0, 0, 4, 0, 0, 0, 5, 0]);
    mv.move_mode = Some(MoveMode::Run);
    let packet = encode_server_message(&ServerMessage::MoveEntity(mv)).unwrap();
    assert_eq!(packet.command, SERVER_MOVE_ENTITY_WITH_MOVE_MODE);
    assert_eq!(packet.data.last(), Some(&1));
}

#[test]
fn unknown_command_is_reported() {
    let packet = Packet { command: 0x7ff, data: vec![1, 2, 3] };
    assert_eq!(decode_server_message(&packet), Err(DecodeError::UnknownCommand(0x7ff)));
    assert_eq!(decode_client_message(&packet), Err(DecodeError::UnknownCommand(0x7ff)));
}

#[test]
fn trailing_bytes_are_rejected() {
    let packet = Packet { command: 0x7b8, data: vec![1, 0, 2, 0, 0, 0, 3, 0, 0, 0, 99] };
    assert_eq!(decode_server_message(&packet), Err(DecodeError::TrailingBytes));
}

#[test]
fn invalid_move_mode_is_malformed() {
    let mut data = vec![1, 0, 0, 2, 0, 3, 0, 0, 0, 4, 0, 0, 0, 5, 0];
    data.push(3);
    let packet = Packet { command: SERVER_MOVE_ENTITY_WITH_MOVE_MODE, data };
    assert_eq!(decode_server_message(&packet), Err(DecodeError::Malformed));
}

#[test]
fn invalid_presence_tag_is_malformed() {
    let packet = Packet { command: 0x786, data: vec![2, b'x', 0, b'y', 0] };
    assert_eq!(decode_server_message(&packet), Err(DecodeError::Malformed));
}

#[test]
fn invalid_utf8_is_malformed() {
    let packet = Packet { command: 0x783, data: vec![8, 0, 0xff, 0xfe, 0] };
    assert_eq!(decode_server_message(&packet), Err(DecodeError::Malformed));
}

#[test]
fn multibyte_text_decodes_to_its_characters() {
    let mut data = vec![8, 0];
    data.extend_from_slice("añ✓".as_bytes());
    data.push(0);
    let packet = Packet { command: 0x783, data };
    assert_eq!(
        decode_server_message(&packet),
        Ok(ServerMessage::LocalChat(LocalChat { entity_id: ClientEntityId(8), text: "añ✓".to_string() }))
    );
}

#[test]
fn text_with_zero_byte_cannot_be_encoded() {
    let message = ClientMessage::Chat("a\0b".to_string());
    assert_eq!(encode_client_message(&message).unwrap_err(), EncodeError::ZeroByteInText);
}

#[test]
fn too_many_entities_cannot_be_encoded() {
    let ids = vec![ClientEntityId(1); 65536];
    let message = ServerMessage::RemoveEntities(RemoveEntities { entity_ids: ids });
    assert_eq!(encode_server_message(&message).unwrap_err(), EncodeError::TooManyItems);
    let ids = vec![ClientEntityId(1); 65535];
    let message = ServerMessage::RemoveEntities(RemoveEntities { entity_ids: ids });
    assert!(encode_server_message(&message).is_ok());
}
