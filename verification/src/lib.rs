//! Verified core of a two-player Senet game server.
//!
//! The crate is split into the rule engine (`game`), the room model and the
//! room directory (`room`, `registry`), the events a room emits (`events`),
//! the protocol dispatch layer (`protocol`), and the thin shims over outside
//! collaborators (`ext`): randomness, identifiers and the wall clock.

pub mod events;
pub mod ext;
pub mod game;
pub mod protocol;
pub mod registry;
pub mod room;
