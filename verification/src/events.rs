//! The events a room emits.  Every mutation of a room is projected to one
//! or more of these; the transport layer encodes them for the wire.  All
//! fields are plain values so that contracts can speak about them exactly.

use vstd::prelude::*;
use crate::game::GameSnapshot;
use crate::room::PlayerInfo;
use crate::room::RoomStatus;
use crate::registry::RoomFilters;
use crate::registry::RoomSummary;

verus! {

/// The wire envelope around every server-emitted event: its type tag, a
/// timestamp, and the payload.
#[derive(Debug)]
pub struct Envelope<T> {
    pub msg_type: String,
    pub timestamp: u128,
    pub data: T,
}

/// Why the turn changed hands (or stayed).
#[derive(Clone, Copy, PartialEq, Eq, Structural, Debug)]
pub enum TurnReason {
    NormalMove,
    ExtraTurn,
    NoLegalMoves,
    PassTurn,
}

/// A player-status notification.
#[derive(Clone, Copy, PartialEq, Eq, Structural, Debug)]
pub enum PlayerStatusKind {
    Connected,
    Disconnected,
    LeftRoom,
    NewOwner,
    GameCancelled,
    RoomDeleted,
    GameFinished,
}

/// One move as echoed back to the room.
#[derive(Debug)]
pub struct MoveRecord {
    pub player_id: String,
    pub side: char,
    pub piece_index: usize,
    pub from: u8,
    pub to: u8,
    pub roll: u8,
    pub captured: Option<char>,
    pub extra_turn: bool,
}

#[derive(Debug)]
pub enum Event {
    RoomCreated {
        room_id: String,
        room_name: String,
        owner: String,
        max_players: usize,
        status: RoomStatus,
    },
    RoomJoined {
        room_id: String,
        room_name: String,
        players: Vec<PlayerInfo>,
        current_player: Option<PlayerInfo>,
    },
    PlayerReady { room_id: String, player_id: String, is_ready: bool, all_ready: bool },
    GameStarted {
        room_id: String,
        game_id: String,
        players: Vec<PlayerInfo>,
        initial_turn: char,
        game_state: GameSnapshot,
    },
    SticksRolled {
        room_id: String,
        game_id: String,
        player_id: String,
        roll: u8,
        faces: [u8; 4],
        turn: char,
        can_move: bool,
    },
    PieceMoved { room_id: String, game_id: String, mv: MoveRecord, game_state: GameSnapshot },
    TurnChanged { room_id: String, game_id: String, new_turn: char, reason: TurnReason },
    GameEnded {
        room_id: String,
        game_id: String,
        winner: char,
        winner_name: String,
        final_state: GameSnapshot,
        game_duration: u64,
    },
    GameReset { room_id: String, game_id: String, reset_by: String, new_game_id: String },
    PlayerStatus { room_id: String, player_id: String, kind: PlayerStatusKind, last_seen: u128 },
    ChatReceived {
        room_id: String,
        player_id: String,
        player_name: String,
        message: String,
        message_type: String,
        timestamp: u128,
    },
    RoomList { rooms: Vec<RoomSummary>, total_count: usize, filters: RoomFilters },
}

} // verus!
