//! The decisions of one game-server session.
//!
//! Whoever runs the connection reports each thing that happens (a packet
//! arrived, the application queued a message, the socket failed, ...) and
//! carries out the action the session answers with. A session ends once, and
//! stays ended.

use vstd::prelude::*;
use crate::codec::{
    client_command, client_fields, client_message_wf, decode_server_message,
    encode_client_message, server_command, server_fields, server_schema, spec_decode_server,
};
use crate::field::{DecodeError, EncodeError, encode_fields};
use crate::messages::{ClientMessage, ServerMessage};
use crate::packet::{Packet, encode_frame, fits_in_frame, frame_bytes};

verus! {

/// Why a session ended.
#[derive(Clone, Copy, Debug, PartialEq, Eq, Structural)]
pub enum GameClientError {
    /// The application closed its queue of outbound messages.
    ClientInitiatedDisconnect,
    /// The socket failed or the server closed it.
    ConnectionLost,
    /// The server sent bytes that do not decode.
    Protocol(DecodeError),
}

/// Why an outbound message was not sent.
#[derive(Clone, Copy, Debug, PartialEq, Eq, Structural)]
pub enum OutboundError {
    Encode(EncodeError),
    /// Its packet is larger than a frame can carry.
    TooLarge,
}

/// Something that happened on the connection or in the application.
pub enum SessionEvent {
    /// A whole packet arrived from the server.
    Packet(Packet),
    /// The inbound stream broke its framing.
    FrameError(DecodeError),
    /// Reading from or writing to the socket failed, or the server closed it.
    ConnectionLost,
    /// The application queued a message for the server.
    Outbound(ClientMessage),
    /// The application closed its queue of outbound messages.
    OutboundClosed,
}

/// What to do about an event.
#[derive(Debug)]
pub enum SessionAction {
    /// Hand this message to the application.
    Deliver(ServerMessage),
    /// Write these bytes, one frame, to the socket.
    Send(Vec<u8>),
    /// Nothing: the packet's command is not one this client knows.
    IgnorePacket(u16),
    /// Nothing: the outbound message could not be sent.
    DropMessage(OutboundError),
    /// Close the connection; the session is over.
    Terminate(GameClientError),
    /// Nothing: the session had already ended.
    Idle,
}

/// The state of one session.
pub struct GameSession {
    pub ended: Option<GameClientError>,
}

/// The packet a client message travels in, framed.
pub open spec fn client_frame(m: ClientMessage) -> Seq<u8> {
    frame_bytes(client_command(m), encode_fields(client_fields(m)))
}

/// What a session does about a packet from the server while it is running.
pub open spec fn packet_outcome(p: Packet, r: SessionAction, ended: Option<GameClientError>) -> bool {
    match spec_decode_server(p.command, p.data@) {
        Ok(fv) => ended is None && (r matches SessionAction::Deliver(m) && server_command(m)
            == p.command && server_fields(m) == fv),
        Err(DecodeError::UnknownCommand(c)) => ended is None && r == SessionAction::IgnorePacket(
            c,
        ),
        Err(e) => ended == Some(GameClientError::Protocol(e)) && r == SessionAction::Terminate(
            GameClientError::Protocol(e),
        ),
    }
}

/// What a session does about an outbound message while it is running. It
/// stays running either way.
pub open spec fn outbound_outcome(m: ClientMessage, r: SessionAction) -> bool {
    if !client_message_wf(m) {
        r matches SessionAction::DropMessage(OutboundError::Encode(_))
    } else if !fits_in_frame(encode_fields(client_fields(m))) {
        r == SessionAction::DropMessage(OutboundError::TooLarge)
    } else {
        r matches SessionAction::Send(bytes) && bytes@ == client_frame(m)
    }
}

impl GameSession {
    pub fn new() -> (s: GameSession)
        ensures
            s.ended is None,
    {
        GameSession { ended: None }
    }

    /// Decides about a packet from the server: a message is delivered, an
    /// unknown command is ignored, and anything that does not decode ends
    /// the session.
    pub fn handle_packet(&mut self, packet: Packet) -> (r: SessionAction)
        requires
            old(self).ended is None,
        ensures
            packet_outcome(packet, r, final(self).ended),
    {
        match decode_server_message(&packet) {
            Ok(m) => SessionAction::Deliver(m),
            Err(DecodeError::UnknownCommand(c)) => SessionAction::IgnorePacket(c),
            Err(e) => {
                self.ended = Some(GameClientError::Protocol(e));
                SessionAction::Terminate(GameClientError::Protocol(e))
            },
        }
    }

    /// Decides about a message the application queued: it is encoded and
    /// framed, or dropped when it cannot be.
    pub fn handle_client_message(&self, message: &ClientMessage) -> (r: SessionAction)
        ensures
            outbound_outcome(*message, r),
    {
        match encode_client_message(message) {
            Err(e) => SessionAction::DropMessage(OutboundError::Encode(e)),
            Ok(packet) => match encode_frame(&packet) {
                Some(bytes) => SessionAction::Send(bytes),
                None => SessionAction::DropMessage(OutboundError::TooLarge),
            },
        }
    }

    /// Decides about one event. Once the session has ended every event is
    /// met with `Idle` and the session stays as it is.
    pub fn handle_event(&mut self, event: SessionEvent) -> (r: SessionAction)
        ensures
            old(self).ended is Some ==> r is Idle && final(self).ended == old(self).ended,
            old(self).ended is None ==> match event {
                SessionEvent::Packet(p) => packet_outcome(p, r, final(self).ended),
                SessionEvent::FrameError(e) => final(self).ended == Some(
                    GameClientError::Protocol(e),
                ) && r == SessionAction::Terminate(GameClientError::Protocol(e)),
                SessionEvent::ConnectionLost => final(self).ended == Some(
                    GameClientError::ConnectionLost,
                ) && r == SessionAction::Terminate(GameClientError::ConnectionLost),
                SessionEvent::Outbound(m) => final(self).ended is None && outbound_outcome(m, r),
                SessionEvent::OutboundClosed => final(self).ended == Some(
                    GameClientError::ClientInitiatedDisconnect,
                ) && r == SessionAction::Terminate(GameClientError::ClientInitiatedDisconnect),
            },
            // A packet with a command this client does not know never ends the session.
            old(self).ended is None ==> (event matches SessionEvent::Packet(p) ==> (server_schema(
                p.command,
            ) is None ==> final(self).ended is None && r == SessionAction::IgnorePacket(
                p.command,
            ))),
            // Closing the outbound queue ends the session as a disconnect the
            // client asked for, not as a lost connection.
            old(self).ended is None && event is OutboundClosed ==> r == SessionAction::Terminate(
                GameClientError::ClientInitiatedDisconnect,
            ) && final(self).ended != Some(GameClientError::ConnectionLost),
    {
        if self.ended.is_some() {
            return SessionAction::Idle;
        }
        match event {
            SessionEvent::Packet(p) => self.handle_packet(p),
            SessionEvent::FrameError(e) => {
                self.ended = Some(GameClientError::Protocol(e));
                SessionAction::Terminate(GameClientError::Protocol(e))
            },
            SessionEvent::ConnectionLost => {
                self.ended = Some(GameClientError::ConnectionLost);
                SessionAction::Terminate(GameClientError::ConnectionLost)
            },
            SessionEvent::Outbound(m) => self.handle_client_message(&m),
            SessionEvent::OutboundClosed => {
                self.ended = Some(GameClientError::ClientInitiatedDisconnect);
                SessionAction::Terminate(GameClientError::ClientInitiatedDisconnect)
            },
        }
    }
}

} // verus!
