//! Client side of the game's network protocol: the payload and frame codecs,
//! the opcode dispatch table, and the session state machine that decides what
//! to do with each inbound packet and outbound message.
//!
//! Beside it stand the small pieces of client state that the protocol's
//! messages feed: the entity list, zone objects, character model parts, the
//! chat box, and the idle-sound decision of NPCs.

pub mod field;
pub mod packet;
pub mod messages;
pub mod codec;
pub mod session;
pub mod entity;
pub mod zone;
pub mod character_model;
pub mod npc_idle_sound;
pub mod game_ui;
pub mod zms;
pub mod systems;
