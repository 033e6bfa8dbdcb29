use rose_offline_client::codec::encode_server_message;
use rose_offline_client::field::{DecodeError, EncodeError};
use rose_offline_client::messages::{ClientEntityId, ClientMessage, ServerMessage, UpdateSpeed};
use rose_offline_client::packet::Packet;
use rose_offline_client::session::{
    GameClientError, GameSession, OutboundError, SessionAction, SessionEvent,
};

#[test]
fn unknown_command_does_not_end_the_session() {
    let mut session = GameSession::new();
    let action = session.handle_event(SessionEvent::Packet(Packet { command: 0x7ff, data: vec![1] }));
    assert!(matches!(action, SessionAction::IgnorePacket(0x7ff)));
    assert_eq!(session.ended, None);
    let message = ServerMessage::UpdateSpeed(UpdateSpeed { entity_id: ClientEntityId(3), run_speed: 1, passive_attack_speed: 2 });
    let packet = encode_server_message(&message).unwrap();
    match session.handle_event(SessionEvent::Packet(packet)) {
        SessionAction::Deliver(delivered) => assert_eq!(delivered, message),
        other => panic!("unexpected action {:?}", other),
    }
}

#[test]
fn closing_the_outbound_queue_is_a_client_disconnect() {
    let mut session = GameSession::new();
    let action = session.handle_event(SessionEvent::OutboundClosed);
    assert!(matches!(action, SessionAction::Terminate(GameClientError::ClientInitiatedDisconnect)));
    assert_eq!(session.ended, Some(GameClientError::ClientInitiatedDisconnect));
}

#[test]
fn lost_connection_is_not_a_client_disconnect() {
    let mut session = GameSession::new();
    let action = session.handle_event(SessionEvent::ConnectionLost);
    assert!(matches!(action, SessionAction::Terminate(GameClientError::ConnectionLost)));
}

#[test]
fn undecodable_packet_ends_the_session() {
    let mut session = GameSession::new();
    let action = session.handle_event(SessionEvent::Packet(Packet { command: 0x7b8, data: vec![1, 0, 2] }));
    assert!(matches!(action, SessionAction::Terminate(GameClientError::Protocol(DecodeError::Truncated))));
    assert_eq!(session.ended, Some(GameClientError::Protocol(DecodeError::Truncated)));
}

#[test]
fn framing_error_ends_the_session() {
    let mut session = GameSession::new();
    let action = session.handle_event(SessionEvent::FrameError(DecodeError::Malformed));
    assert!(matches!(action, SessionAction::Terminate(GameClientError::Protocol(DecodeError::Malformed))));
}

#[test]
fn ended_session_stays_ended() {
    let mut session = GameSession::new();
    session.handle_event(SessionEvent::OutboundClosed);
    let action = session.handle_event(SessionEvent::Outbound(ClientMessage::JoinZoneRequest));
    assert!(matches!(action, SessionAction::Idle));
    let action = session.handle_event(SessionEvent::ConnectionLost);
    assert!(matches!(action, SessionAction::Idle));
    assert_eq!(session.ended, Some(GameClientError::ClientInitiatedDisconnect));
}

#[test]
fn outbound_message_is_sent_as_a_frame() {
    let mut session = GameSession::new();
    let action = session.handle_event(SessionEvent::Outbound(ClientMessage::Chat("hi".to_string())));
    match action {
        SessionAction::Send(bytes) => assert_eq!(bytes, vec![9, 0, 0x83, 0x07, 0, 0, b'h', b'i', 0]),
        other => panic!("unexpected action {:?}", other),
    }
    assert_eq!(session.ended, None);
}

#[test]
fn outbound_message_that_cannot_be_encoded_is_dropped() {
    let mut session = GameSession::new();
    let action = session.handle_event(SessionEvent::Outbound(ClientMessage::Chat("a\0".to_string())));
    assert!(matches!(action, SessionAction::DropMessage(OutboundError::Encode(EncodeError::ZeroByteInText))));
    let long = "x".repeat(70000);
    let action = session.handle_event(SessionEvent::Outbound(ClientMessage::Chat(long)));
    assert!(matches!(action, SessionAction::DropMessage(OutboundError::TooLarge)));
    assert_eq!(session.ended, None);
}
