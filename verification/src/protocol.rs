//! The per-connection protocol layer: decoded commands, the session state
//! machine, and the dispatch logic that turns a command into room
//! mutations and events.  Turn-scoped commands are validated in a fixed
//! order — binding, room status, seat, turn, payload — and the first
//! failure aborts without mutating anything.

use vstd::prelude::*;
use crate::events::Event;
use crate::events::MoveRecord;
use crate::events::PlayerStatusKind;
use crate::events::TurnReason;
use crate::game::EXIT_SQUARE;
use crate::game::PIECES;
use crate::game::WATER_SQUARE;
use crate::game::all_exited;
use crate::game::spec_opponent;
use crate::game::spec_passes_water;
use crate::registry::RoomFilters;
use crate::registry::RoomRegistry;
use crate::room::Room;
use crate::room::RoomError;
use crate::room::RoomStatus;

verus! {

/// The stable code of a rejected command.
#[derive(Clone, Copy, PartialEq, Eq, Structural, Debug)]
pub enum ErrorCode {
    InvalidJson,
    RoomCreationFailed,
    JoinRoomFailed,
    StartGameFailed,
    ResetGameFailed,
    DeleteRoomFailed,
    GameNotStarted,
    NotYourTurn,
    NotYourSide,
    InvalidMove,
    InvalidRoll,
    UnknownMessageType,
}

impl ErrorCode {
    pub open spec fn spec_code(self) -> Seq<char> {
        match self {
            ErrorCode::InvalidJson => "INVALID_JSON"@,
            ErrorCode::RoomCreationFailed => "ROOM_CREATION_FAILED"@,
            ErrorCode::JoinRoomFailed => "JOIN_ROOM_FAILED"@,
            ErrorCode::StartGameFailed => "START_GAME_FAILED"@,
            ErrorCode::ResetGameFailed => "RESET_GAME_FAILED"@,
            ErrorCode::DeleteRoomFailed => "DELETE_ROOM_FAILED"@,
            ErrorCode::GameNotStarted => "GAME_NOT_STARTED"@,
            ErrorCode::NotYourTurn => "NOT_YOUR_TURN"@,
            ErrorCode::NotYourSide => "NOT_YOUR_SIDE"@,
            ErrorCode::InvalidMove => "INVALID_MOVE"@,
            ErrorCode::InvalidRoll => "INVALID_ROLL"@,
            ErrorCode::UnknownMessageType => "UNKNOWN_MESSAGE_TYPE"@,
        }
    }

    pub fn code(&self) -> (r: &'static str)
        ensures
            r@ == self.spec_code(),
    {
        match self {
            ErrorCode::InvalidJson => "INVALID_JSON",
            ErrorCode::RoomCreationFailed => "ROOM_CREATION_FAILED",
            ErrorCode::JoinRoomFailed => "JOIN_ROOM_FAILED",
            ErrorCode::StartGameFailed => "START_GAME_FAILED",
            ErrorCode::ResetGameFailed => "RESET_GAME_FAILED",
            ErrorCode::DeleteRoomFailed => "DELETE_ROOM_FAILED",
            ErrorCode::GameNotStarted => "GAME_NOT_STARTED",
            ErrorCode::NotYourTurn => "NOT_YOUR_TURN",
            ErrorCode::NotYourSide => "NOT_YOUR_SIDE",
            ErrorCode::InvalidMove => "INVALID_MOVE",
            ErrorCode::InvalidRoll => "INVALID_ROLL",
            ErrorCode::UnknownMessageType => "UNKNOWN_MESSAGE_TYPE",
        }
    }
}

/// What a rejected command reports back: the stable code, the room error
/// behind it where one exists, and the room the command addressed.
pub struct ErrorReport {
    pub code: ErrorCode,
    pub reason: Option<RoomError>,
    pub room_id: Option<String>,
}

/// One decoded inbound command.
pub enum Command {
    GetRoomList { filters: RoomFilters },
    CreateRoom {
        room_name: String,
        password: Option<String>,
        max_players: usize,
        player_name: String,
        player_id: Option<String>,
    },
    JoinRoom { room_id: String, password: Option<String>, player_name: String, player_id: String },
    ReadyStatus { room_id: String, player_id: String, is_ready: bool },
    StartGame { player_id: String },
    RollSticks { room_id: String, player_id: String },
    MovePiece {
        room_id: String,
        player_id: String,
        side: char,
        piece_index: usize,
        from: u8,
        to: u8,
        roll: u8,
    },
    PassTurn { room_id: String, player_id: String, roll: Option<u8> },
    ResetGame { player_id: String },
    LeaveRoom { room_id: String, player_id: String },
    DeleteRoom { room_id: String, player_id: String },
    ChatMessage { room_id: String, player_id: String, message: String, message_type: String },
    Heartbeat { room_id: String, player_id: String },
}

/// The per-connection protocol state: the bound room and identity, set on
/// the first successful create or join, or by a reconnection rebind.
pub struct Session {
    pub room_id: Option<String>,
    pub player_id: Option<String>,
    pub player_name: Option<String>,
}

impl Session {
    pub fn new() -> (s: Session)
        ensures
            s.room_id is None,
            s.player_id is None,
            s.player_name is None,
    {
        Session { room_id: None, player_id: None, player_name: None }
    }
}

/// What one dispatched command produced: events for this connection alone,
/// events to broadcast to the bound room, and the error report, if any.
pub struct Outcome {
    pub to_caller: Vec<Event>,
    pub to_room: Vec<Event>,
    pub error: Option<ErrorReport>,
}

/// The id seated on the side whose turn it is.
pub open spec fn spec_seat_holder(room: Room, side: char) -> Option<String> {
    if side == 'W' {
        room.seat_w
    } else {
        room.seat_b
    }
}

/// `e` is the given turn-change announcement.
pub open spec fn is_turn_changed_ev(
    e: Event,
    room: Seq<char>,
    gid: Seq<char>,
    turn: char,
    why: TurnReason,
) -> bool {
    e matches Event::TurnChanged { room_id, game_id, new_turn, reason } && room_id@ == room
        && game_id@ == gid && new_turn == turn && reason == why
}

fn seat_matches(room: &Room, side: char, pid: &String) -> (r: bool)
    ensures
        r == (spec_seat_holder(*room, side) matches Some(p) && p@ == pid@),
{
    let seat = if side == 'W' {
        &room.seat_w
    } else {
        &room.seat_b
    };
    match seat {
        Some(p) => *p == *pid,
        None => false,
    }
}

/// What passing the turn does: only during play, only for the player
/// seated on the side whose turn it is, and only quoting the cached roll.
/// The turn flips, the cached roll clears, and the change is announced.
pub open spec fn spec_pass_outcome(
    pre: Room,
    post: Room,
    r: Result<Vec<Event>, ErrorReport>,
    pid: Seq<char>,
    roll: Option<u8>,
    now: u128,
) -> bool {
    if pre.status != RoomStatus::Playing {
        &&& post == pre
        &&& (r matches Err(e) && e.code == ErrorCode::GameNotStarted && e.reason is None)
    } else if !(spec_seat_holder(pre, pre.game.turn) matches Some(p) && p@ == pid) {
        &&& post == pre
        &&& (r matches Err(e) && e.code == ErrorCode::NotYourTurn && e.reason is None)
    } else if pre.game.last_roll != roll {
        &&& post == pre
        &&& (r matches Err(e) && e.code == ErrorCode::InvalidRoll && e.reason is None)
    } else {
        &&& post.game.turn == spec_opponent(pre.game.turn)
        &&& post.game.last_roll is None
        &&& post.game.w == pre.game.w
        &&& post.game.b == pre.game.b
        &&& post.game.game_over == pre.game.game_over
        &&& post == (Room { game: post.game, last_activity: now, ..pre })
        &&& (r matches Ok(evs) && evs@.len() == 1 && is_turn_changed_ev(
            evs@[0],
            pre.id@,
            pre.game_id@,
            post.game.turn,
            TurnReason::PassTurn,
        ))
    }
}

/// Passes the turn on a quoted roll; see `spec_pass_outcome`.
pub fn handle_pass_turn(room: &mut Room, player_id: &String, roll: Option<u8>, now: u128) -> (r:
    Result<Vec<Event>, ErrorReport>)
    requires
        old(room).wf(),
    ensures
        final(room).wf(),
        spec_pass_outcome(*old(room), *final(room), r, player_id@, roll, now),
{
    if room.status != RoomStatus::Playing {
        return Err(
            ErrorReport {
                code: ErrorCode::GameNotStarted,
                reason: None,
                room_id: Some(room.id.clone()),
            },
        );
    }
    let turn = room.game.turn;
    if !seat_matches(room, turn, player_id) {
        return Err(
            ErrorReport {
                code: ErrorCode::NotYourTurn,
                reason: None,
                room_id: Some(room.id.clone()),
            },
        );
    }
    let roll_matches = match (room.game.last_roll, roll) {
        (Some(a), Some(b)) => a == b,
        (None, None) => true,
        _ => false,
    };
    if !roll_matches {
        return Err(
            ErrorReport {
                code: ErrorCode::InvalidRoll,
                reason: None,
                room_id: Some(room.id.clone()),
            },
        );
    }
    let new_turn = crate::game::opponent(turn);
    room.game.turn = new_turn;
    room.game.last_roll = None;
    room.last_activity = now;
    let ev = Event::TurnChanged {
        room_id: room.id.clone(),
        game_id: room.game_id.clone(),
        new_turn,
        reason: TurnReason::PassTurn,
    };
    Ok(vec![ev])
}

/// What rolling the sticks does: only during play and only on the acting
/// player's turn.  The roll is cached and announced; when it leaves no
/// legal move (and the game is not over), the turn passes automatically
/// and that is announced too.
pub open spec fn spec_roll_outcome(
    pre: Room,
    post: Room,
    r: Result<Vec<Event>, ErrorReport>,
    pid: Seq<char>,
    now: u128,
) -> bool {
    if pre.status != RoomStatus::Playing {
        &&& post == pre
        &&& (r matches Err(e) && e.code == ErrorCode::GameNotStarted && e.reason is None)
    } else if !(spec_seat_holder(pre, pre.game.turn) matches Some(p) && p@ == pid) {
        &&& post == pre
        &&& (r matches Err(e) && e.code == ErrorCode::NotYourTurn && e.reason is None)
    } else {
        r matches Ok(evs) && evs@.len() >= 1 && (evs@[0] matches Event::SticksRolled {
            room_id,
            game_id,
            player_id,
            roll,
            faces,
            turn,
            can_move,
        } && {
            &&& room_id@ == pre.id@
            &&& game_id@ == pre.game_id@
            &&& player_id@ == pid
            &&& 1 <= roll <= 5
            &&& (forall|i: int| 0 <= i < 4 ==> #[trigger] faces@[i] <= 1)
            &&& ({
                let s = faces@[0] + faces@[1] + faces@[2] + faces@[3];
                roll == if s == 0 {
                    5
                } else {
                    s
                }
            })
            &&& turn == pre.game.turn
            &&& (can_move <==> exists|i: int|
                0 <= i < PIECES && pre.game.candidate_ok(pre.game.turn, roll, i))
            &&& post.game.w == pre.game.w
            &&& post.game.b == pre.game.b
            &&& post.game.game_over == pre.game.game_over
            &&& post == (Room { game: post.game, last_activity: now, ..pre })
            &&& (if !can_move && !pre.game.game_over {
                &&& post.game.turn == spec_opponent(pre.game.turn)
                &&& post.game.last_roll is None
                &&& evs@.len() == 2
                &&& is_turn_changed_ev(
                    evs@[1],
                    pre.id@,
                    pre.game_id@,
                    post.game.turn,
                    TurnReason::NoLegalMoves,
                )
            } else {
                &&& post.game.turn == pre.game.turn
                &&& post.game.last_roll == Some(roll)
                &&& evs@.len() == 1
            })
        })
    }
}

/// Rolls the sticks for the acting player; see `spec_roll_outcome`.
pub fn handle_roll_sticks(room: &mut Room, player_id: &String, now: u128) -> (r: Result<
    Vec<Event>,
    ErrorReport,
>)
    requires
        old(room).wf(),
    ensures
        final(room).wf(),
        spec_roll_outcome(*old(room), *final(room), r, player_id@, now),
{
    if room.status != RoomStatus::Playing {
        return Err(
            ErrorReport {
                code: ErrorCode::GameNotStarted,
                reason: None,
                room_id: Some(room.id.clone()),
            },
        );
    }
    let turn = room.game.turn;
    if !seat_matches(room, turn, player_id) {
        return Err(
            ErrorReport {
                code: ErrorCode::NotYourTurn,
                reason: None,
                room_id: Some(room.id.clone()),
            },
        );
    }
    let (roll, faces, _grants, can_move) = room.game.roll();
    let mut events: Vec<Event> = Vec::new();
    events.push(
        Event::SticksRolled {
            room_id: room.id.clone(),
            game_id: room.game_id.clone(),
            player_id: player_id.clone(),
            roll,
            faces,
            turn,
            can_move,
        },
    );
    if !can_move && !room.game.game_over {
        let new_turn = crate::game::opponent(turn);
        room.game.turn = new_turn;
        room.game.last_roll = None;
        events.push(
            Event::TurnChanged {
                room_id: room.id.clone(),
                game_id: room.game_id.clone(),
                new_turn,
                reason: TurnReason::NoLegalMoves,
            },
        );
    }
    room.last_activity = now;
    Ok(events)
}

/// What moving a piece does: only during play, only by the player seated
/// on `side`, only on `side`'s turn, and only when the move re-validates.
/// The engine applies it and the cached roll returns to idle; the move
/// and the resulting position are broadcast; the turn flips (announced)
/// unless an extra turn was earned; a finished game is announced and the
/// room moves to Finished.
pub open spec fn spec_move_outcome(
    pre: Room,
    post: Room,
    r: Result<Vec<Event>, ErrorReport>,
    pid: Seq<char>,
    side: char,
    idx: int,
    from: u8,
    to: u8,
    roll: u8,
    now: u128,
) -> bool {
    if pre.status != RoomStatus::Playing {
        &&& post == pre
        &&& (r matches Err(e) && e.code == ErrorCode::GameNotStarted && e.reason is None)
    } else if !(spec_seat_holder(pre, side) matches Some(p) && p@ == pid) {
        &&& post == pre
        &&& (r matches Err(e) && e.code == ErrorCode::NotYourSide && e.reason is None)
    } else if pre.game.turn != side {
        &&& post == pre
        &&& (r matches Err(e) && e.code == ErrorCode::NotYourTurn && e.reason is None)
    } else if !pre.game.spec_move_valid(side, idx, from, to, roll) {
        &&& post == pre
        &&& (r matches Err(e) && e.code == ErrorCode::InvalidMove && e.reason is None)
    } else {
        let g0 = pre.game;
        let w2 = g0.spec_side_after(side, idx, from, to, 'W');
        let b2 = g0.spec_side_after(side, idx, from, to, 'B');
        let over2 = g0.game_over || all_exited(w2) || all_exited(b2);
        let passes = spec_passes_water(from, to);
        let extra = (roll == 4 || roll == 5) && !passes && to != WATER_SQUARE && !over2;
        let captured = to != EXIT_SQUARE && to != WATER_SQUARE && g0.occupies(
            spec_opponent(side),
            to,
        );
        &&& post.game.w@ == w2
        &&& post.game.b@ == b2
        &&& post.game.game_over == over2
        &&& post.game.turn == (if extra {
            side
        } else {
            spec_opponent(side)
        })
        &&& post.game.last_roll is None
        &&& post.status == (if over2 {
            RoomStatus::Finished
        } else {
            pre.status
        })
        &&& post == (Room {
            game: post.game,
            status: post.status,
            last_activity: now,
            ..pre
        })
        &&& (r matches Ok(evs) && {
            &&& evs@.len() == 1 + (if !extra {
                1int
            } else {
                0int
            }) + (if over2 {
                2int
            } else {
                0int
            })
            &&& (evs@[0] matches Event::PieceMoved { room_id, game_id, mv, game_state } && {
                &&& room_id@ == pre.id@
                &&& game_id@ == pre.game_id@
                &&& mv.player_id@ == pid
                &&& mv.side == side
                &&& mv.piece_index == idx
                &&& mv.from == from
                &&& mv.to == to
                &&& mv.roll == roll
                &&& mv.captured == (if captured {
                    Some(spec_opponent(side))
                } else {
                    None::<char>
                })
                &&& mv.extra_turn == extra
                &&& game_state.w@ == w2
                &&& game_state.b@ == b2
                &&& game_state.turn == side
                &&& game_state.roll is None
                &&& game_state.game_over == over2
            })
            &&& (!extra ==> is_turn_changed_ev(
                evs@[1],
                pre.id@,
                pre.game_id@,
                spec_opponent(side),
                TurnReason::NormalMove,
            ))
            &&& (over2 ==> {
                let base = if !extra {
                    2int
                } else {
                    1int
                };
                &&& (evs@[base] matches Event::GameEnded {
                    room_id,
                    game_id,
                    winner,
                    winner_name,
                    final_state,
                    game_duration,
                } && room_id@ == pre.id@ && game_id@ == pre.game_id@ && winner == side
                    && winner_name@ == pre.players@[pre.spec_player_index(pid)].name@
                    && final_state.w@ == w2 && final_state.b@ == b2 && final_state.game_over
                    == over2 && game_duration == 0)
                &&& crate::room::is_player_status_ev(
                    evs@[base + 1],
                    pre.id@,
                    "system"@,
                    PlayerStatusKind::GameFinished,
                    now,
                )
            })
        })
    }
}

/// Applies one move command; see `spec_move_outcome`.
pub fn handle_move_piece(
    room: &mut Room,
    player_id: &String,
    side: char,
    piece_index: usize,
    from: u8,
    to: u8,
    roll: u8,
    now: u128,
) -> (r: Result<Vec<Event>, ErrorReport>)
    requires
        old(room).wf(),
    ensures
        final(room).wf(),
        spec_move_outcome(
            *old(room),
            *final(room),
            r,
            player_id@,
            side,
            piece_index as int,
            from,
            to,
            roll,
            now,
        ),
{
    if room.status != RoomStatus::Playing {
        return Err(
            ErrorReport {
                code: ErrorCode::GameNotStarted,
                reason: None,
                room_id: Some(room.id.clone()),
            },
        );
    }
    if !seat_matches(room, side, player_id) {
        return Err(
            ErrorReport {
                code: ErrorCode::NotYourSide,
                reason: None,
                room_id: Some(room.id.clone()),
            },
        );
    }
    if room.game.turn != side {
        return Err(
            ErrorReport {
                code: ErrorCode::NotYourTurn,
                reason: None,
                room_id: Some(room.id.clone()),
            },
        );
    }
    let (ok, extra, _passed_water, captured) = room.game.apply_move(
        side,
        piece_index,
        from,
        to,
        roll,
    );
    if !ok {
        return Err(
            ErrorReport { code: ErrorCode::InvalidMove, reason: None, room_id: None },
        );
    }
    room.game.last_roll = None;
    let captured_side: Option<char> = match captured {
        Some((c, _)) => Some(c),
        None => None,
    };
    let mv = MoveRecord {
        player_id: player_id.clone(),
        side,
        piece_index,
        from,
        to,
        roll,
        captured: captured_side,
        extra_turn: extra,
    };
    let gs = room.game.snapshot();
    let end_gs = room.game.snapshot();
    let mut events: Vec<Event> = Vec::new();
    events.push(
        Event::PieceMoved {
            room_id: room.id.clone(),
            game_id: room.game_id.clone(),
            mv,
            game_state: gs,
        },
    );
    if !extra {
        let new_turn = crate::game::opponent(side);
        room.game.turn = new_turn;
        events.push(
            Event::TurnChanged {
                room_id: room.id.clone(),
                game_id: room.game_id.clone(),
                new_turn,
                reason: TurnReason::NormalMove,
            },
        );
    }
    if room.game.game_over {
        let winner_name = match room.find_player(player_id) {
            Some(i) => room.players[i].name.clone(),
            None => "Unknown".to_owned(),
        };
        let final_state = end_gs;
        events.push(
            Event::GameEnded {
                room_id: room.id.clone(),
                game_id: room.game_id.clone(),
                winner: side,
                winner_name,
                final_state,
                game_duration: 0,
            },
        );
        room.status = RoomStatus::Finished;
        events.push(
            Event::PlayerStatus {
                room_id: room.id.clone(),
                player_id: "system".to_owned(),
                kind: PlayerStatusKind::GameFinished,
                last_seen: now,
            },
        );
    }
    room.last_activity = now;
    Ok(events)
}

/// The directory index of the session's bound room, when the binding is
/// live.
pub open spec fn spec_bound_room(reg: RoomRegistry, session: Session) -> Option<int> {
    match session.room_id {
        Some(rid) => if reg.spec_has_room(rid@) {
            Some(reg.spec_room_index(rid@))
        } else {
            None
        },
        None => None,
    }
}

/// An outcome folded back into the result the handler produced.
pub open spec fn spec_outcome_result(r: Outcome) -> Result<Vec<Event>, ErrorReport> {
    match r.error {
        Some(e) => Err(e),
        None => Ok(r.to_room),
    }
}

/// Nothing happened: no mutation, no events, no error.
pub open spec fn spec_noop(
    or: RoomRegistry,
    fr: RoomRegistry,
    os: Session,
    fs: Session,
    r: Outcome,
) -> bool {
    &&& fr == or
    &&& fs == os
    &&& r.to_caller@.len() == 0
    &&& r.to_room@.len() == 0
    &&& r.error is None
}

/// The session after the best-effort reconnection rebind: an unbound
/// session quoting a live room it is still a member of becomes bound to
/// it; anything else is left as it was.
pub open spec fn spec_rebound(
    reg: RoomRegistry,
    session: Session,
    room_id: String,
    player_id: String,
) -> Session {
    if session.room_id is None && room_id@.len() > 0 && player_id@.len() > 0 && reg.spec_has_room(
        room_id@,
    ) && reg.rooms@[reg.spec_room_index(room_id@)].spec_has_player(player_id@) {
        Session {
            room_id: Some(room_id),
            player_id: Some(player_id),
            player_name: Some(player_id),
        }
    } else {
        session
    }
}

/// `e` is the full-snapshot start broadcast of `room`.
pub open spec fn is_game_started_ev(e: Event, room: Room) -> bool {
    e matches Event::GameStarted { room_id, game_id, players, initial_turn, game_state } && room_id@
        == room.id@ && game_id@ == room.game_id@ && players@ =~= room.spec_roster()
        && initial_turn == 'W' && game_state.w@ =~= room.game.w@ && game_state.b@ =~= room.game.b@
        && game_state.turn == 'W' && game_state.roll is None && game_state.game_over == false
}

fn empty_outcome() -> (r: Outcome)
    ensures
        r.to_caller@.len() == 0,
        r.to_room@.len() == 0,
        r.error is None,
{
    Outcome { to_caller: Vec::new(), to_room: Vec::new(), error: None }
}

/// The registry after swapping one room back in, its id unchanged, is
/// still well-formed.
proof fn lemma_registry_update_wf(pre: RoomRegistry, post: RoomRegistry, i: int)
    requires
        pre.wf(),
        0 <= i < pre.rooms@.len(),
        post.rooms@.len() == pre.rooms@.len(),
        forall|k: int| 0 <= k < pre.rooms@.len() && k != i ==> post.rooms@[k] == pre.rooms@[k],
        post.rooms@[i].id@ == pre.rooms@[i].id@,
        post.rooms@[i].wf(),
    ensures
        post.wf(),
{
    assert forall|p: int, q: int| 0 <= p < q < post.rooms@.len() implies post.rooms@[p].id@
        != post.rooms@[q].id@ by {
        assert(pre.rooms@[p].id@ != pre.rooms@[q].id@);
    }
    assert forall|k: int| 0 <= k < post.rooms@.len() implies (#[trigger] post.rooms@[k]).wf() by {
        if k != i {
            assert(post.rooms@[k] == pre.rooms@[k]);
        }
    }
}

/// The contract of the `GetRoomList` command; see `dispatch`.
pub open spec fn spec_get_room_list_dispatch(
    or: RoomRegistry,
    fr: RoomRegistry,
    os: Session,
    fs: Session,
    r: Outcome,
    filters: RoomFilters,
    now: u128,
) -> bool {
    &&& fr == or
    &&& fs == os
    &&& r.error is None
    &&& r.to_room@.len() == 0
    &&& r.to_caller@.len() == 1
    &&& (r.to_caller@[0] matches Event::RoomList { rooms, total_count, filters: f2 }
        && rooms@ == crate::registry::spec_room_list(
        or.rooms@,
        filters,
        or.rooms@.len() as int,
    ) && total_count == rooms@.len() && f2 == filters)
}

fn dispatch_get_room_list(reg: &mut RoomRegistry, session: &mut Session, filters: RoomFilters, now: u128) -> (r:
    Outcome)
    requires
        old(reg).wf(),
    ensures
        final(reg).wf(),
        spec_get_room_list_dispatch(
            *old(reg),
            *final(reg),
            *old(session),
            *final(session),
            r,
            filters,
            now,
        ),
{
    let rooms = reg.get_room_list(&filters);
    let total_count = rooms.len();
    let ev = Event::RoomList { rooms, total_count, filters };
    Outcome { to_caller: vec![ev], to_room: Vec::new(), error: None }
}

/// The contract of the `CreateRoom` command; see `dispatch`.
pub open spec fn spec_create_room_dispatch(
    or: RoomRegistry,
    fr: RoomRegistry,
    os: Session,
    fs: Session,
    r: Outcome,
    room_name: String,
    password: Option<String>,
    max_players: usize,
    player_name: String,
    player_id: Option<String>,
    now: u128,
) -> bool {
    &&& r.error is None
    &&& r.to_caller@.len() == 2
    &&& r.to_room@.len() == 1
    &&& (fs.player_name matches Some(n) && n@ == player_name@)
    &&& (player_id matches Some(q) ==> fs.player_id matches Some(p) && p@ == q@)
    &&& fs.player_id is Some
    &&& (r.to_caller@[0] matches Event::RoomCreated {
        room_id: rid,
        room_name: rn,
        owner,
        max_players: mp,
        status,
    } && {
        &&& fs.room_id matches Some(b) && b@ == rid@
        &&& fr.spec_has_room(rid@)
        &&& rn@ == room_name@
        &&& mp == max_players
        &&& status == RoomStatus::Waiting
        &&& ({
            let room = fr.rooms@[fr.spec_room_index(rid@)];
            &&& crate::registry::spec_new_room_ok(
                room,
                room_name@,
                password,
                max_players,
                player_name@,
                fs.player_id->0@,
                now,
            )
            &&& owner@ == room.players@[0].name@
            &&& (if or.spec_has_room(rid@) {
                fr.rooms@ =~= or.rooms@.update(or.spec_room_index(rid@), room)
            } else {
                fr.rooms@ =~= or.rooms@.push(room)
            })
            &&& crate::room::is_join_ack_ev(r.to_caller@[1], room)
            &&& crate::room::is_roster_broadcast_ev(r.to_room@[0], room)
        })
    })
}

fn dispatch_create_room(reg: &mut RoomRegistry, session: &mut Session, room_name: String, password: Option<String>, max_players: usize, player_name: String, player_id: Option<String>, now: u128) -> (r:
    Outcome)
    requires
        old(reg).wf(),
    ensures
        final(reg).wf(),
        spec_create_room_dispatch(
            *old(reg),
            *final(reg),
            *old(session),
            *final(session),
            r,
            room_name, password, max_players, player_name, player_id,
            now,
        ),
{
    let pid = match player_id {
        Some(p) => p,
        None => crate::ext::fresh_id(),
    };
    let room_id = crate::ext::fresh_id();
    let game_id = crate::ext::fresh_id();
    let (created, ack, bc) = reg.create_room(
        room_id.clone(),
        game_id,
        room_name,
        password,
        max_players,
        &player_name,
        &pid,
        now,
    );
    session.room_id = Some(room_id);
    session.player_id = Some(pid);
    session.player_name = Some(player_name);
    Outcome { to_caller: vec![created, ack], to_room: vec![bc], error: None }
}

/// The contract of the `JoinRoom` command; see `dispatch`.
pub open spec fn spec_join_room_dispatch(
    or: RoomRegistry,
    fr: RoomRegistry,
    os: Session,
    fs: Session,
    r: Outcome,
    room_id: String,
    password: Option<String>,
    player_name: String,
    player_id: String,
    now: u128,
) -> bool {
    if !or.spec_has_room(room_id@) {
        &&& (fr.rooms@ =~= or.rooms@)
        &&& fs == os
        &&& r.to_caller@.len() == 0
        &&& r.to_room@.len() == 0
        &&& (r.error matches Some(e) && e.code == ErrorCode::JoinRoomFailed
            && e.reason == Some(RoomError::RoomNotFound))
    } else {
        let i = or.spec_room_index(room_id@);
        let pre = or.rooms@[i];
        let given = match password {
            Some(p) => Some(p@),
            None => None,
        };
        match pre.spec_join_err(given, player_id@) {
            Some(e0) => {
                &&& (fr.rooms@ =~= or.rooms@)
                &&& fs == os
                &&& r.to_caller@.len() == 0
                &&& r.to_room@.len() == 0
                &&& (r.error matches Some(e) && e.code == ErrorCode::JoinRoomFailed
                    && e.reason == Some(e0))
            },
            None => {
                &&& fr.rooms@.len() == or.rooms@.len()
                &&& (forall|k: int|
                    0 <= k < or.rooms@.len() && k != i
                        ==> #[trigger] fr.rooms@[k] == or.rooms@[k])
                &&& crate::room::spec_joined_post(
                    pre,
                    fr.rooms@[i],
                    player_name@,
                    player_id@,
                    now,
                )
                &&& (fs.room_id matches Some(b) && b@ == room_id@)
                &&& (fs.player_id matches Some(p) && p@ == player_id@)
                &&& (fs.player_name matches Some(n) && n@ == player_name@)
                &&& r.error is None
                &&& r.to_caller@.len() == 1
                &&& crate::room::is_join_ack_ev(r.to_caller@[0], fr.rooms@[i])
                &&& r.to_room@.len() == 1
                &&& crate::room::is_roster_broadcast_ev(
                    r.to_room@[0],
                    fr.rooms@[i],
                )
            },
        }
    }
}

fn dispatch_join_room(reg: &mut RoomRegistry, session: &mut Session, room_id: String, password: Option<String>, player_name: String, player_id: String, now: u128) -> (r:
    Outcome)
    requires
        old(reg).wf(),
    ensures
        final(reg).wf(),
        spec_join_room_dispatch(
            *old(reg),
            *final(reg),
            *old(session),
            *final(session),
            r,
            room_id, password, player_name, player_id,
            now,
        ),
{
    match reg.lookup(&room_id) {
        None => {
            Outcome {
                to_caller: Vec::new(),
                to_room: Vec::new(),
                error: Some(
                    ErrorReport {
                        code: ErrorCode::JoinRoomFailed,
                        reason: Some(RoomError::RoomNotFound),
                        room_id: Some(room_id),
                    },
                ),
            }
        },
        Some(i) => {
            let mut room = reg.rooms.remove(i);
            let res = room.join_room(password.as_ref(), &player_name, &player_id, now);
            reg.rooms.insert(i, room);
            proof {
                assert(reg.rooms@ =~= old(reg).rooms@.update(i as int, reg.rooms@[i as int]));
                lemma_registry_update_wf(*old(reg), *reg, i as int);
            }
            match res {
                Ok((ack, bc)) => {
                    session.room_id = Some(room_id);
                    session.player_id = Some(player_id);
                    session.player_name = Some(player_name);
                    Outcome { to_caller: vec![ack], to_room: vec![bc], error: None }
                },
                Err(e) => {
                    Outcome {
                        to_caller: Vec::new(),
                        to_room: Vec::new(),
                        error: Some(
                            ErrorReport {
                                code: ErrorCode::JoinRoomFailed,
                                reason: Some(e),
                                room_id: Some(room_id),
                            },
                        ),
                    }
                },
            }
        },
    }
}

/// The contract of the `ReadyStatus` command; see `dispatch`.
pub open spec fn spec_ready_status_dispatch(
    or: RoomRegistry,
    fr: RoomRegistry,
    os: Session,
    fs: Session,
    r: Outcome,
    room_id: String,
    player_id: String,
    is_ready: bool,
    now: u128,
) -> bool {
    match spec_bound_room(or, os) {
        None => spec_noop(or, fr, os, fs, r),
        Some(i) => {
            if or.rooms@[i].id@ != room_id@ {
                spec_noop(or, fr, os, fs, r)
            } else {
                &&& fs == os
                &&& r.error is None
                &&& r.to_caller@.len() == 0
                &&& fr.rooms@.len() == or.rooms@.len()
                &&& (forall|k: int|
                    0 <= k < or.rooms@.len() && k != i
                        ==> #[trigger] fr.rooms@[k] == or.rooms@[k])
                &&& crate::room::spec_ready_post(
                    or.rooms@[i],
                    fr.rooms@[i],
                    player_id@,
                    is_ready,
                    now,
                )
                &&& r.to_room@.len() == 1
                &&& (r.to_room@[0] matches Event::PlayerReady {
                    room_id: rid2,
                    player_id: pid2,
                    is_ready: ir2,
                    all_ready,
                } && rid2@ == room_id@ && pid2@ == player_id@ && ir2 == is_ready
                    && all_ready == fr.rooms@[i].spec_all_ready())
            }
        },
    }
}

fn dispatch_ready_status(reg: &mut RoomRegistry, session: &mut Session, room_id: String, player_id: String, is_ready: bool, now: u128) -> (r:
    Outcome)
    requires
        old(reg).wf(),
    ensures
        final(reg).wf(),
        spec_ready_status_dispatch(
            *old(reg),
            *final(reg),
            *old(session),
            *final(session),
            r,
            room_id, player_id, is_ready,
            now,
        ),
{
    let bound = match &session.room_id {
        Some(b) => Some(b.clone()),
        None => None,
    };
    match bound {
        None => empty_outcome(),
        Some(b) => {
            match reg.lookup(&b) {
                None => empty_outcome(),
                Some(i) => {
                    if reg.rooms[i].id != room_id {
                        empty_outcome()
                    } else {
                        let mut room = reg.rooms.remove(i);
                        let (_all_ready, ev) = room.set_ready(&player_id, is_ready, now);
                        reg.rooms.insert(i, room);
                        proof {
                            assert(reg.rooms@ =~= old(reg).rooms@.update(
                                i as int,
                                reg.rooms@[i as int],
                            ));
                            lemma_registry_update_wf(*old(reg), *reg, i as int);
                        }
                        Outcome { to_caller: Vec::new(), to_room: vec![ev], error: None }
                    }
                },
            }
        },
    }
}

/// The contract of the `StartGame` command; see `dispatch`.
pub open spec fn spec_start_game_dispatch(
    or: RoomRegistry,
    fr: RoomRegistry,
    os: Session,
    fs: Session,
    r: Outcome,
    player_id: String,
    now: u128,
) -> bool {
    match spec_bound_room(or, os) {
        None => spec_noop(or, fr, os, fs, r),
        Some(i) => {
            let pre = or.rooms@[i];
            match pre.spec_start_err(player_id@) {
                Some(e0) => {
                    &&& (fr.rooms@ =~= or.rooms@)
                    &&& fs == os
                    &&& r.to_caller@.len() == 0
                    &&& r.to_room@.len() == 0
                    &&& (r.error matches Some(e) && e.code
                        == ErrorCode::StartGameFailed && e.reason == Some(e0))
                },
                None => {
                    &&& fs == os
                    &&& r.error is None
                    &&& r.to_caller@.len() == 0
                    &&& fr.rooms@.len() == or.rooms@.len()
                    &&& (forall|k: int|
                        0 <= k < or.rooms@.len() && k != i
                            ==> #[trigger] fr.rooms@[k] == or.rooms@[k])
                    &&& ({
                        let post = fr.rooms@[i];
                        &&& post == (Room {
                            status: RoomStatus::Playing,
                            game: post.game,
                            game_id: post.game_id,
                            last_activity: now,
                            ..pre
                        })
                        &&& post.game.is_initial()
                        &&& r.to_room@.len() == 1
                        &&& is_game_started_ev(r.to_room@[0], post)
                    })
                },
            }
        },
    }
}

fn dispatch_start_game(reg: &mut RoomRegistry, session: &mut Session, player_id: String, now: u128) -> (r:
    Outcome)
    requires
        old(reg).wf(),
    ensures
        final(reg).wf(),
        spec_start_game_dispatch(
            *old(reg),
            *final(reg),
            *old(session),
            *final(session),
            r,
            player_id,
            now,
        ),
{
    let bound = match &session.room_id {
        Some(b) => Some(b.clone()),
        None => None,
    };
    match bound {
        None => empty_outcome(),
        Some(b) => {
            match reg.lookup(&b) {
                None => empty_outcome(),
                Some(i) => {
                    let gid = crate::ext::fresh_id();
                    let mut room = reg.rooms.remove(i);
                    let res = room.start_game(&player_id, gid, now);
                    reg.rooms.insert(i, room);
                    proof {
                        assert(reg.rooms@ =~= old(reg).rooms@.update(
                            i as int,
                            reg.rooms@[i as int],
                        ));
                        lemma_registry_update_wf(*old(reg), *reg, i as int);
                    }
                    match res {
                        Ok(ev) => Outcome {
                            to_caller: Vec::new(),
                            to_room: vec![ev],
                            error: None,
                        },
                        Err(e) => Outcome {
                            to_caller: Vec::new(),
                            to_room: Vec::new(),
                            error: Some(
                                ErrorReport {
                                    code: ErrorCode::StartGameFailed,
                                    reason: Some(e),
                                    room_id: Some(b),
                                },
                            ),
                        },
                    }
                },
            }
        },
    }
}

/// The contract of the `RollSticks` command; see `dispatch`.  It first
/// attempts the best-effort reconnection rebind; a frame naming a room
/// other than the bound one is dropped.
pub open spec fn spec_roll_sticks_dispatch(
    or: RoomRegistry,
    fr: RoomRegistry,
    os: Session,
    fs: Session,
    r: Outcome,
    room_id: String,
    player_id: String,
    now: u128,
) -> bool {
    let sess1 = spec_rebound(or, os, room_id, player_id);
    &&& fs == sess1
    &&& match spec_bound_room(or, sess1) {
        None => fr == or && r.to_caller@.len() == 0 && r.to_room@.len() == 0
            && r.error is None,
        Some(i) => {
            if or.rooms@[i].id@ != room_id@ {
                fr == or && r.to_caller@.len() == 0 && r.to_room@.len() == 0
                    && r.error is None
            } else {
                &&& fr.rooms@.len() == or.rooms@.len()
                &&& (forall|k: int|
                    0 <= k < or.rooms@.len() && k != i ==> #[trigger] fr.rooms@[k]
                        == or.rooms@[k])
                &&& r.to_caller@.len() == 0
                &&& (r.error is Some ==> r.to_room@.len() == 0)
                &&& spec_roll_outcome(
                    or.rooms@[i],
                    fr.rooms@[i],
                    spec_outcome_result(r),
                    player_id@,
                    now,
                )
            }
        },
    }
}

fn dispatch_roll_sticks(reg: &mut RoomRegistry, session: &mut Session, room_id: String, player_id: String, now: u128) -> (r:
    Outcome)
    requires
        old(reg).wf(),
    ensures
        final(reg).wf(),
        spec_roll_sticks_dispatch(
            *old(reg),
            *final(reg),
            *old(session),
            *final(session),
            r,
            room_id, player_id,
            now,
        ),
{
    if session.room_id.is_none() && !room_id.as_str().is_empty()
        && !player_id.as_str().is_empty() {
        match reg.lookup(&room_id) {
            Some(i) => {
                if reg.rooms[i].find_player(&player_id).is_some() {
                    session.room_id = Some(room_id.clone());
                    session.player_id = Some(player_id.clone());
                    session.player_name = Some(player_id.clone());
                }
            },
            None => {},
        }
    }
    let bound = match &session.room_id {
        Some(b) => Some(b.clone()),
        None => None,
    };
    match bound {
        None => empty_outcome(),
        Some(b) => {
            match reg.lookup(&b) {
                None => empty_outcome(),
                Some(i) => {
                    if reg.rooms[i].id != room_id {
                        return empty_outcome();
                    }
                    let mut room = reg.rooms.remove(i);
                    let res = handle_roll_sticks(&mut room, &player_id, now);
                    reg.rooms.insert(i, room);
                    proof {
                        assert(reg.rooms@ =~= old(reg).rooms@.update(
                            i as int,
                            reg.rooms@[i as int],
                        ));
                        lemma_registry_update_wf(*old(reg), *reg, i as int);
                    }
                    match res {
                        Ok(evs) => Outcome {
                            to_caller: Vec::new(),
                            to_room: evs,
                            error: None,
                        },
                        Err(e) => Outcome {
                            to_caller: Vec::new(),
                            to_room: Vec::new(),
                            error: Some(e),
                        },
                    }
                },
            }
        },
    }
}

/// The contract of the `MovePiece` command; see `dispatch`.  Like
/// `RollSticks`, it first attempts the best-effort reconnection rebind.
pub open spec fn spec_move_piece_dispatch(
    or: RoomRegistry,
    fr: RoomRegistry,
    os: Session,
    fs: Session,
    r: Outcome,
    room_id: String,
    player_id: String,
    side: char,
    piece_index: usize,
    from: u8,
    to: u8,
    roll: u8,
    now: u128,
) -> bool {
    let sess1 = spec_rebound(or, os, room_id, player_id);
    &&& fs == sess1
    &&& match spec_bound_room(or, sess1) {
        None => fr == or && r.to_caller@.len() == 0 && r.to_room@.len() == 0 && r.error is None,
        Some(i) => {
            if or.rooms@[i].id@ != room_id@ {
                fr == or && r.to_caller@.len() == 0 && r.to_room@.len() == 0 && r.error is None
            } else {
                &&& fr.rooms@.len() == or.rooms@.len()
                &&& (forall|k: int|
                    0 <= k < or.rooms@.len() && k != i
                        ==> #[trigger] fr.rooms@[k] == or.rooms@[k])
                &&& r.to_caller@.len() == 0
                &&& (r.error is Some ==> r.to_room@.len() == 0)
                &&& spec_move_outcome(
                    or.rooms@[i],
                    fr.rooms@[i],
                    spec_outcome_result(r),
                    player_id@,
                    side,
                    piece_index as int,
                    from,
                    to,
                    roll,
                    now,
                )
            }
        },
    }
}

fn dispatch_move_piece(reg: &mut RoomRegistry, session: &mut Session, room_id: String, player_id: String, side: char, piece_index: usize, from: u8, to: u8, roll: u8, now: u128) -> (r:
    Outcome)
    requires
        old(reg).wf(),
    ensures
        final(reg).wf(),
        spec_move_piece_dispatch(
            *old(reg),
            *final(reg),
            *old(session),
            *final(session),
            r,
            room_id, player_id, side, piece_index, from, to, roll,
            now,
        ),
{
    if session.room_id.is_none() && !room_id.as_str().is_empty()
        && !player_id.as_str().is_empty() {
        match reg.lookup(&room_id) {
            Some(i) => {
                if reg.rooms[i].find_player(&player_id).is_some() {
                    session.room_id = Some(room_id.clone());
                    session.player_id = Some(player_id.clone());
                    session.player_name = Some(player_id.clone());
                }
            },
            None => {},
        }
    }
    let bound = match &session.room_id {
        Some(b) => Some(b.clone()),
        None => None,
    };
    match bound {
        None => empty_outcome(),
        Some(b) => {
            match reg.lookup(&b) {
                None => empty_outcome(),
                Some(i) => {
                    if reg.rooms[i].id != room_id {
                        empty_outcome()
                    } else {
                        let mut room = reg.rooms.remove(i);
                        let res = handle_move_piece(
                            &mut room,
                            &player_id,
                            side,
                            piece_index,
                            from,
                            to,
                            roll,
                            now,
                        );
                        reg.rooms.insert(i, room);
                        proof {
                            assert(reg.rooms@ =~= old(reg).rooms@.update(
                                i as int,
                                reg.rooms@[i as int],
                            ));
                            lemma_registry_update_wf(*old(reg), *reg, i as int);
                        }
                        match res {
                            Ok(evs) => Outcome {
                                to_caller: Vec::new(),
                                to_room: evs,
                                error: None,
                            },
                            Err(e) => Outcome {
                                to_caller: Vec::new(),
                                to_room: Vec::new(),
                                error: Some(e),
                            },
                        }
                    }
                },
            }
        },
    }
}

/// The contract of the `PassTurn` command; see `dispatch`.  Like
/// `RollSticks`, it first attempts the best-effort reconnection rebind.
pub open spec fn spec_pass_turn_dispatch(
    or: RoomRegistry,
    fr: RoomRegistry,
    os: Session,
    fs: Session,
    r: Outcome,
    room_id: String,
    player_id: String,
    roll: Option<u8>,
    now: u128,
) -> bool {
    let sess1 = spec_rebound(or, os, room_id, player_id);
    &&& fs == sess1
    &&& match spec_bound_room(or, sess1) {
        None => fr == or && r.to_caller@.len() == 0 && r.to_room@.len() == 0 && r.error is None,
        Some(i) => {
            if or.rooms@[i].id@ != room_id@ {
                fr == or && r.to_caller@.len() == 0 && r.to_room@.len() == 0 && r.error is None
            } else {
                &&& fr.rooms@.len() == or.rooms@.len()
                &&& (forall|k: int|
                    0 <= k < or.rooms@.len() && k != i
                        ==> #[trigger] fr.rooms@[k] == or.rooms@[k])
                &&& r.to_caller@.len() == 0
                &&& (r.error is Some ==> r.to_room@.len() == 0)
                &&& spec_pass_outcome(
                    or.rooms@[i],
                    fr.rooms@[i],
                    spec_outcome_result(r),
                    player_id@,
                    roll,
                    now,
                )
            }
        },
    }
}

fn dispatch_pass_turn(reg: &mut RoomRegistry, session: &mut Session, room_id: String, player_id: String, roll: Option<u8>, now: u128) -> (r:
    Outcome)
    requires
        old(reg).wf(),
    ensures
        final(reg).wf(),
        spec_pass_turn_dispatch(
            *old(reg),
            *final(reg),
            *old(session),
            *final(session),
            r,
            room_id, player_id, roll,
            now,
        ),
{
    if session.room_id.is_none() && !room_id.as_str().is_empty()
        && !player_id.as_str().is_empty() {
        match reg.lookup(&room_id) {
            Some(i) => {
                if reg.rooms[i].find_player(&player_id).is_some() {
                    session.room_id = Some(room_id.clone());
                    session.player_id = Some(player_id.clone());
                    session.player_name = Some(player_id.clone());
                }
            },
            None => {},
        }
    }
    let bound = match &session.room_id {
        Some(b) => Some(b.clone()),
        None => None,
    };
    match bound {
        None => empty_outcome(),
        Some(b) => {
            match reg.lookup(&b) {
                None => empty_outcome(),
                Some(i) => {
                    if reg.rooms[i].id != room_id {
                        empty_outcome()
                    } else {
                        let mut room = reg.rooms.remove(i);
                        let res = handle_pass_turn(&mut room, &player_id, roll, now);
                        reg.rooms.insert(i, room);
                        proof {
                            assert(reg.rooms@ =~= old(reg).rooms@.update(
                                i as int,
                                reg.rooms@[i as int],
                            ));
                            lemma_registry_update_wf(*old(reg), *reg, i as int);
                        }
                        match res {
                            Ok(evs) => Outcome {
                                to_caller: Vec::new(),
                                to_room: evs,
                                error: None,
                            },
                            Err(e) => Outcome {
                                to_caller: Vec::new(),
                                to_room: Vec::new(),
                                error: Some(e),
                            },
                        }
                    }
                },
            }
        },
    }
}

/// The contract of the `ResetGame` command; see `dispatch`.
pub open spec fn spec_reset_game_dispatch(
    or: RoomRegistry,
    fr: RoomRegistry,
    os: Session,
    fs: Session,
    r: Outcome,
    player_id: String,
    now: u128,
) -> bool {
    match spec_bound_room(or, os) {
        None => spec_noop(or, fr, os, fs, r),
        Some(i) => {
            let pre = or.rooms@[i];
            match pre.spec_reset_err(player_id@) {
                Some(e0) => {
                    &&& (fr.rooms@ =~= or.rooms@)
                    &&& fs == os
                    &&& r.to_caller@.len() == 0
                    &&& r.to_room@.len() == 0
                    &&& (r.error matches Some(e) && e.code
                        == ErrorCode::ResetGameFailed && e.reason == Some(e0))
                },
                None => {
                    &&& fs == os
                    &&& r.error is None
                    &&& r.to_caller@.len() == 0
                    &&& fr.rooms@.len() == or.rooms@.len()
                    &&& (forall|k: int|
                        0 <= k < or.rooms@.len() && k != i
                            ==> #[trigger] fr.rooms@[k] == or.rooms@[k])
                    &&& ({
                        let post = fr.rooms@[i];
                        &&& post == (Room {
                            status: RoomStatus::Playing,
                            game: post.game,
                            game_id: post.game_id,
                            last_activity: now,
                            ..pre
                        })
                        &&& post.game.is_initial()
                        &&& r.to_room@.len() == 2
                        &&& (r.to_room@[0] matches Event::GameReset {
                            room_id: rid2,
                            game_id: gid2,
                            reset_by,
                            new_game_id,
                        } && rid2@ == pre.id@ && gid2@ == pre.game_id@ && reset_by@
                            == player_id@ && new_game_id@ == post.game_id@)
                        &&& is_game_started_ev(r.to_room@[1], post)
                    })
                },
            }
        },
    }
}

fn dispatch_reset_game(reg: &mut RoomRegistry, session: &mut Session, player_id: String, now: u128) -> (r:
    Outcome)
    requires
        old(reg).wf(),
    ensures
        final(reg).wf(),
        spec_reset_game_dispatch(
            *old(reg),
            *final(reg),
            *old(session),
            *final(session),
            r,
            player_id,
            now,
        ),
{
    let bound = match &session.room_id {
        Some(b) => Some(b.clone()),
        None => None,
    };
    match bound {
        None => empty_outcome(),
        Some(b) => {
            match reg.lookup(&b) {
                None => empty_outcome(),
                Some(i) => {
                    let gid = crate::ext::fresh_id();
                    let mut room = reg.rooms.remove(i);
                    let res = room.reset_game(&player_id, gid, now);
                    reg.rooms.insert(i, room);
                    proof {
                        assert(reg.rooms@ =~= old(reg).rooms@.update(
                            i as int,
                            reg.rooms@[i as int],
                        ));
                        lemma_registry_update_wf(*old(reg), *reg, i as int);
                    }
                    match res {
                        Ok((e1, e2)) => Outcome {
                            to_caller: Vec::new(),
                            to_room: vec![e1, e2],
                            error: None,
                        },
                        Err(e) => Outcome {
                            to_caller: Vec::new(),
                            to_room: Vec::new(),
                            error: Some(
                                ErrorReport {
                                    code: ErrorCode::ResetGameFailed,
                                    reason: Some(e),
                                    room_id: Some(b),
                                },
                            ),
                        },
                    }
                },
            }
        },
    }
}

/// The contract of the `LeaveRoom` command; see `dispatch`.
pub open spec fn spec_leave_room_dispatch(
    or: RoomRegistry,
    fr: RoomRegistry,
    os: Session,
    fs: Session,
    r: Outcome,
    room_id: String,
    player_id: String,
    now: u128,
) -> bool {
    match os.room_id {
        None => spec_noop(or, fr, os, fs, r),
        Some(bound) => {
            &&& fs.room_id is None
            &&& fs.player_id == os.player_id
            &&& fs.player_name == os.player_name
            &&& (if bound@ != room_id@ || !or.spec_has_room(bound@) {
                fr == or && r.to_caller@.len() == 0 && r.to_room@.len() == 0
                    && r.error is None
            } else {
                let i = or.spec_room_index(bound@);
                let pre = or.rooms@[i];
                &&& r.error is None
                &&& r.to_caller@.len() == 0
                &&& r.to_room@.len() >= 1
                &&& crate::room::is_player_status_ev(
                    r.to_room@[0],
                    pre.id@,
                    player_id@,
                    PlayerStatusKind::LeftRoom,
                    now,
                )
                &&& ({
                    let empty = pre.spec_roster_after_remove(player_id@).len()
                        == 0;
                    if empty {
                        &&& fr.rooms@ =~= or.rooms@.remove(i)
                        &&& exists|post: Room|
                            crate::room::spec_leave_post(
                                pre,
                                post,
                                player_id@,
                                now,
                            ) && crate::room::spec_leave_events(
                                pre,
                                post,
                                #[trigger] r.to_room@.subrange(
                                    1,
                                    r.to_room@.len() as int,
                                ),
                                player_id@,
                                now,
                            )
                    } else {
                        &&& fr.rooms@.len() == or.rooms@.len()
                        &&& (forall|k: int|
                            0 <= k < or.rooms@.len() && k != i
                                ==> #[trigger] fr.rooms@[k] == or.rooms@[k])
                        &&& crate::room::spec_leave_post(
                            pre,
                            fr.rooms@[i],
                            player_id@,
                            now,
                        )
                        &&& crate::room::spec_leave_events(
                            pre,
                            fr.rooms@[i],
                            r.to_room@.subrange(1, r.to_room@.len() as int),
                            player_id@,
                            now,
                        )
                    }
                })
            })
        },
    }
}

fn dispatch_leave_room(reg: &mut RoomRegistry, session: &mut Session, room_id: String, player_id: String, now: u128) -> (r:
    Outcome)
    requires
        old(reg).wf(),
    ensures
        final(reg).wf(),
        spec_leave_room_dispatch(
            *old(reg),
            *final(reg),
            *old(session),
            *final(session),
            r,
            room_id, player_id,
            now,
        ),
{
    let bound = match &session.room_id {
        Some(b) => Some(b.clone()),
        None => None,
    };
    match bound {
        None => empty_outcome(),
        Some(b) => {
            session.room_id = None;
            if b != room_id {
                empty_outcome()
            } else {
                match reg.lookup(&b) {
                    None => empty_outcome(),
                    Some(i) => {
                        let mut events: Vec<Event> = Vec::new();
                        events.push(
                            Event::PlayerStatus {
                                room_id: b.clone(),
                                player_id: player_id.clone(),
                                kind: PlayerStatusKind::LeftRoom,
                                last_seen: now,
                            },
                        );
                        let gid = crate::ext::fresh_id();
                        let mut room = reg.rooms.remove(i);
                        let ghost pre = room;
                        let (is_empty, mut evs) = room.leave_room(&player_id, gid, now);
                        events.append(&mut evs);
                        if is_empty {
                            proof {
                                let a = old(reg).rooms@;
                                let bq = a.remove(i as int);
                                assert forall|p: int, q: int|
                                    0 <= p < q < bq.len() implies bq[p].id@
                                    != bq[q].id@ by {
                                    let p0 = if p < i as int {
                                        p
                                    } else {
                                        p + 1
                                    };
                                    let q0 = if q < i as int {
                                        q
                                    } else {
                                        q + 1
                                    };
                                    assert(bq[p] == a[p0]);
                                    assert(bq[q] == a[q0]);
                                }
                                assert forall|p: int|
                                    0 <= p < bq.len() implies (#[trigger] bq[p]).wf() by {
                                    let p0 = if p < i as int {
                                        p
                                    } else {
                                        p + 1
                                    };
                                    assert(bq[p] == a[p0]);
                                }
                            }
                            Outcome { to_caller: Vec::new(), to_room: events, error: None }
                        } else {
                            reg.rooms.insert(i, room);
                            proof {
                                assert(reg.rooms@ =~= old(reg).rooms@.update(
                                    i as int,
                                    reg.rooms@[i as int],
                                ));
                                lemma_registry_update_wf(*old(reg), *reg, i as int);
                                assert(crate::room::spec_leave_events(
                                    pre,
                                    reg.rooms@[i as int],
                                    events@.subrange(1, events@.len() as int),
                                    player_id@,
                                    now,
                                ));
                            }
                            Outcome { to_caller: Vec::new(), to_room: events, error: None }
                        }
                    },
                }
            }
        },
    }
}

/// The contract of the `DeleteRoom` command; see `dispatch`.
pub open spec fn spec_delete_room_dispatch(
    or: RoomRegistry,
    fr: RoomRegistry,
    os: Session,
    fs: Session,
    r: Outcome,
    room_id: String,
    player_id: String,
    now: u128,
) -> bool {
    &&& fs == os
    &&& r.to_caller@.len() == 0
    &&& (if !or.spec_has_room(room_id@) {
        &&& fr == or
        &&& r.to_room@.len() == 0
        &&& (r.error matches Some(e) && e.code == ErrorCode::DeleteRoomFailed
            && e.reason == Some(RoomError::RoomNotFound))
    } else {
        let i = or.spec_room_index(room_id@);
        if or.rooms@[i].owner@ != player_id@ {
            &&& fr == or
            &&& r.to_room@.len() == 0
            &&& (r.error matches Some(e) && e.code == ErrorCode::DeleteRoomFailed
                && e.reason == Some(RoomError::NotRoomOwner))
        } else {
            &&& fr.rooms@ =~= or.rooms@.remove(i)
            &&& r.error is None
            &&& r.to_room@.len() == 1
            &&& crate::registry::is_deleted_ev(r.to_room@[0], room_id@, now)
        }
    })
}

fn dispatch_delete_room(reg: &mut RoomRegistry, session: &mut Session, room_id: String, player_id: String, now: u128) -> (r:
    Outcome)
    requires
        old(reg).wf(),
    ensures
        final(reg).wf(),
        spec_delete_room_dispatch(
            *old(reg),
            *final(reg),
            *old(session),
            *final(session),
            r,
            room_id, player_id,
            now,
        ),
{
    let res = reg.delete_room(&room_id, &player_id, now);
    match res {
        Ok(ev) => Outcome { to_caller: Vec::new(), to_room: vec![ev], error: None },
        Err(e) => Outcome {
            to_caller: Vec::new(),
            to_room: Vec::new(),
            error: Some(
                ErrorReport {
                    code: ErrorCode::DeleteRoomFailed,
                    reason: Some(e),
                    room_id: Some(room_id),
                },
            ),
        },
    }
}

/// The contract of the `ChatMessage` command; see `dispatch`.
pub open spec fn spec_chat_message_dispatch(
    or: RoomRegistry,
    fr: RoomRegistry,
    os: Session,
    fs: Session,
    r: Outcome,
    room_id: String,
    player_id: String,
    message: String,
    message_type: String,
    now: u128,
) -> bool {
    match spec_bound_room(or, os) {
        None => spec_noop(or, fr, os, fs, r),
        Some(i) => {
            if or.rooms@[i].id@ != room_id@ {
                spec_noop(or, fr, os, fs, r)
            } else {
                &&& fr == or
                &&& fs == os
                &&& r.error is None
                &&& r.to_caller@.len() == 0
                &&& r.to_room@.len() == 1
                &&& (r.to_room@[0] matches Event::ChatReceived {
                    room_id: rid2,
                    player_id: pid2,
                    player_name,
                    message: msg2,
                    message_type: mt2,
                    timestamp,
                } && rid2@ == room_id@ && pid2@ == player_id@ && msg2@ == message@
                    && mt2@ == message_type@ && timestamp == now && player_name@
                    == (match os.player_name {
                    Some(n) => n@,
                    None => "Player"@,
                }))
            }
        },
    }
}

fn dispatch_chat_message(reg: &mut RoomRegistry, session: &mut Session, room_id: String, player_id: String, message: String, message_type: String, now: u128) -> (r:
    Outcome)
    requires
        old(reg).wf(),
    ensures
        final(reg).wf(),
        spec_chat_message_dispatch(
            *old(reg),
            *final(reg),
            *old(session),
            *final(session),
            r,
            room_id, player_id, message, message_type,
            now,
        ),
{
    let bound = match &session.room_id {
        Some(b) => Some(b.clone()),
        None => None,
    };
    match bound {
        None => empty_outcome(),
        Some(b) => {
            match reg.lookup(&b) {
                None => empty_outcome(),
                Some(i) => {
                    if reg.rooms[i].id != room_id {
                        empty_outcome()
                    } else {
                        let name = match &session.player_name {
                            Some(n) => n.clone(),
                            None => "Player".to_owned(),
                        };
                        let ev = Event::ChatReceived {
                            room_id,
                            player_id,
                            player_name: name,
                            message,
                            message_type,
                            timestamp: now,
                        };
                        Outcome { to_caller: Vec::new(), to_room: vec![ev], error: None }
                    }
                },
            }
        },
    }
}

/// The contract of the `Heartbeat` command; see `dispatch`.
pub open spec fn spec_heartbeat_dispatch(
    or: RoomRegistry,
    fr: RoomRegistry,
    os: Session,
    fs: Session,
    r: Outcome,
    room_id: String,
    player_id: String,
    now: u128,
) -> bool {
    match spec_bound_room(or, os) {
        None => spec_noop(or, fr, os, fs, r),
        Some(i) => {
            if or.rooms@[i].id@ != room_id@ {
                spec_noop(or, fr, os, fs, r)
            } else {
                &&& fs == os
                &&& r.error is None
                &&& r.to_caller@.len() == 0
                &&& fr.rooms@.len() == or.rooms@.len()
                &&& (forall|k: int|
                    0 <= k < or.rooms@.len() && k != i
                        ==> #[trigger] fr.rooms@[k] == or.rooms@[k])
                &&& fr.rooms@[i] == (Room {
                    last_activity: now,
                    ..or.rooms@[i]
                })
                &&& r.to_room@.len() == 1
                &&& crate::room::is_player_status_ev(
                    r.to_room@[0],
                    room_id@,
                    player_id@,
                    PlayerStatusKind::Connected,
                    now,
                )
            }
        },
    }
}

fn dispatch_heartbeat(reg: &mut RoomRegistry, session: &mut Session, room_id: String, player_id: String, now: u128) -> (r:
    Outcome)
    requires
        old(reg).wf(),
    ensures
        final(reg).wf(),
        spec_heartbeat_dispatch(
            *old(reg),
            *final(reg),
            *old(session),
            *final(session),
            r,
            room_id, player_id,
            now,
        ),
{
    let bound = match &session.room_id {
        Some(b) => Some(b.clone()),
        None => None,
    };
    match bound {
        None => empty_outcome(),
        Some(b) => {
            match reg.lookup(&b) {
                None => empty_outcome(),
                Some(i) => {
                    if reg.rooms[i].id != room_id {
                        empty_outcome()
                    } else {
                        let mut room = reg.rooms.remove(i);
                        room.last_activity = now;
                        reg.rooms.insert(i, room);
                        proof {
                            assert(reg.rooms@ =~= old(reg).rooms@.update(
                                i as int,
                                reg.rooms@[i as int],
                            ));
                            lemma_registry_update_wf(*old(reg), *reg, i as int);
                        }
                        let ev = Event::PlayerStatus {
                            room_id,
                            player_id,
                            kind: PlayerStatusKind::Connected,
                            last_seen: now,
                        };
                        Outcome { to_caller: Vec::new(), to_room: vec![ev], error: None }
                    }
                },
            }
        },
    }
}

/// Routes one decoded command, mirroring the inbound dispatch loop: the
/// listing and create/join/delete commands work against the directory;
/// turn-scoped commands act on the session's bound room after the
/// binding, status, seat, turn and payload checks, in that order, the
/// first failure aborting without mutation.  `ROLL_STICKS`, `MOVE_PIECE`
/// and `PASS_TURN` first attempt the best-effort reconnection rebind.  A
/// command for a room other than
/// the bound one is dropped; so is a room-scoped command on an unbound
/// session.  Each command's full contract stands in its
/// `spec_..._dispatch` predicate.
pub fn dispatch(reg: &mut RoomRegistry, session: &mut Session, cmd: Command, now: u128) -> (r:
    Outcome)
    requires
        old(reg).wf(),
    ensures
        final(reg).wf(),
        ({
            let or = *old(reg);
            let os = *old(session);
            let fr = *final(reg);
            let fs = *final(session);
            match cmd {
                Command::GetRoomList { filters } => spec_get_room_list_dispatch(
                    or,
                    fr,
                    os,
                    fs,
                    r,
                    filters,
                    now,
                ),
                Command::CreateRoom { room_name, password, max_players, player_name, player_id } => spec_create_room_dispatch(
                    or,
                    fr,
                    os,
                    fs,
                    r,
                    room_name, password, max_players, player_name, player_id,
                    now,
                ),
                Command::JoinRoom { room_id, password, player_name, player_id } => spec_join_room_dispatch(
                    or,
                    fr,
                    os,
                    fs,
                    r,
                    room_id, password, player_name, player_id,
                    now,
                ),
                Command::ReadyStatus { room_id, player_id, is_ready } => spec_ready_status_dispatch(
                    or,
                    fr,
                    os,
                    fs,
                    r,
                    room_id, player_id, is_ready,
                    now,
                ),
                Command::StartGame { player_id } => spec_start_game_dispatch(
                    or,
                    fr,
                    os,
                    fs,
                    r,
                    player_id,
                    now,
                ),
                Command::RollSticks { room_id, player_id } => spec_roll_sticks_dispatch(
                    or,
                    fr,
                    os,
                    fs,
                    r,
                    room_id, player_id,
                    now,
                ),
                Command::MovePiece { room_id, player_id, side, piece_index, from, to, roll } => spec_move_piece_dispatch(
                    or,
                    fr,
                    os,
                    fs,
                    r,
                    room_id, player_id, side, piece_index, from, to, roll,
                    now,
                ),
                Command::PassTurn { room_id, player_id, roll } => spec_pass_turn_dispatch(
                    or,
                    fr,
                    os,
                    fs,
                    r,
                    room_id, player_id, roll,
                    now,
                ),
                Command::ResetGame { player_id } => spec_reset_game_dispatch(
                    or,
                    fr,
                    os,
                    fs,
                    r,
                    player_id,
                    now,
                ),
                Command::LeaveRoom { room_id, player_id } => spec_leave_room_dispatch(
                    or,
                    fr,
                    os,
                    fs,
                    r,
                    room_id, player_id,
                    now,
                ),
                Command::DeleteRoom { room_id, player_id } => spec_delete_room_dispatch(
                    or,
                    fr,
                    os,
                    fs,
                    r,
                    room_id, player_id,
                    now,
                ),
                Command::ChatMessage { room_id, player_id, message, message_type } => spec_chat_message_dispatch(
                    or,
                    fr,
                    os,
                    fs,
                    r,
                    room_id, player_id, message, message_type,
                    now,
                ),
                Command::Heartbeat { room_id, player_id } => spec_heartbeat_dispatch(
                    or,
                    fr,
                    os,
                    fs,
                    r,
                    room_id, player_id,
                    now,
                ),
            }
        }),
{
    match cmd {
        Command::GetRoomList { filters } => dispatch_get_room_list(
            reg,
            session,
            filters,
            now,
        ),
        Command::CreateRoom { room_name, password, max_players, player_name, player_id } => dispatch_create_room(
            reg,
            session,
            room_name, password, max_players, player_name, player_id,
            now,
        ),
        Command::JoinRoom { room_id, password, player_name, player_id } => dispatch_join_room(
            reg,
            session,
            room_id, password, player_name, player_id,
            now,
        ),
        Command::ReadyStatus { room_id, player_id, is_ready } => dispatch_ready_status(
            reg,
            session,
            room_id, player_id, is_ready,
            now,
        ),
        Command::StartGame { player_id } => dispatch_start_game(
            reg,
            session,
            player_id,
            now,
        ),
        Command::RollSticks { room_id, player_id } => dispatch_roll_sticks(
            reg,
            session,
            room_id, player_id,
            now,
        ),
        Command::MovePiece { room_id, player_id, side, piece_index, from, to, roll } => dispatch_move_piece(
            reg,
            session,
            room_id, player_id, side, piece_index, from, to, roll,
            now,
        ),
        Command::PassTurn { room_id, player_id, roll } => dispatch_pass_turn(
            reg,
            session,
            room_id, player_id, roll,
            now,
        ),
        Command::ResetGame { player_id } => dispatch_reset_game(
            reg,
            session,
            player_id,
            now,
        ),
        Command::LeaveRoom { room_id, player_id } => dispatch_leave_room(
            reg,
            session,
            room_id, player_id,
            now,
        ),
        Command::DeleteRoom { room_id, player_id } => dispatch_delete_room(
            reg,
            session,
            room_id, player_id,
            now,
        ),
        Command::ChatMessage { room_id, player_id, message, message_type } => dispatch_chat_message(
            reg,
            session,
            room_id, player_id, message, message_type,
            now,
        ),
        Command::Heartbeat { room_id, player_id } => dispatch_heartbeat(
            reg,
            session,
            room_id, player_id,
            now,
        ),
    }
}

/// The contract of connection teardown; see `disconnect`.
pub open spec fn spec_disconnect_post(
    or: RoomRegistry,
    fr: RoomRegistry,
    os: Session,
    fs: Session,
    r: Outcome,
    now: u128,
) -> bool {
    &&& fs.room_id is None
    &&& fs.player_id == os.player_id
    &&& fs.player_name == os.player_name
    &&& r.error is None
    &&& r.to_caller@.len() == 0
    &&& (match (os.room_id, os.player_id) {
        (Some(bound), Some(pid)) => {
            if !or.spec_has_room(bound@) {
                fr == or && r.to_room@.len() == 0
            } else {
                let i = or.spec_room_index(bound@);
                let pre = or.rooms@[i];
                &&& r.to_room@.len() >= 1
                &&& crate::room::is_player_status_ev(
                    r.to_room@[0],
                    pre.id@,
                    pid@,
                    PlayerStatusKind::Disconnected,
                    now,
                )
                &&& ({
                    let empty = pre.spec_roster_after_remove(pid@).len() == 0;
                    if empty {
                        &&& fr.rooms@ =~= or.rooms@.remove(i)
                        &&& exists|post: Room|
                            crate::room::spec_leave_post(pre, post, pid@, now)
                                && crate::room::spec_leave_events(
                                pre,
                                post,
                                #[trigger] r.to_room@.subrange(1, r.to_room@.len() as int),
                                pid@,
                                now,
                            )
                    } else {
                        &&& fr.rooms@.len() == or.rooms@.len()
                        &&& (forall|k: int|
                            0 <= k < or.rooms@.len() && k != i ==> #[trigger] fr.rooms@[k]
                                == or.rooms@[k])
                        &&& crate::room::spec_leave_post(pre, fr.rooms@[i], pid@, now)
                        &&& crate::room::spec_leave_events(
                            pre,
                            fr.rooms@[i],
                            r.to_room@.subrange(1, r.to_room@.len() as int),
                            pid@,
                            now,
                        )
                    }
                })
            }
        },
        _ => fr == or && r.to_room@.len() == 0,
    })
}

/// Tears a connection down: announces the disconnect to the bound room,
/// removes the player from it, and evicts the room when it is now empty.
pub fn disconnect(reg: &mut RoomRegistry, session: &mut Session, now: u128) -> (r: Outcome)
    requires
        old(reg).wf(),
    ensures
        final(reg).wf(),
        spec_disconnect_post(*old(reg), *final(reg), *old(session), *final(session), r, now),
{
    let bound = match &session.room_id {
        Some(b) => Some(b.clone()),
        None => None,
    };
    let pid = match &session.player_id {
        Some(p) => Some(p.clone()),
        None => None,
    };
    session.room_id = None;
    match (bound, pid) {
        (Some(b), Some(p)) => {
            match reg.lookup(&b) {
                None => empty_outcome(),
                Some(i) => {
                    let mut events: Vec<Event> = Vec::new();
                    events.push(
                        Event::PlayerStatus {
                            room_id: b.clone(),
                            player_id: p.clone(),
                            kind: PlayerStatusKind::Disconnected,
                            last_seen: now,
                        },
                    );
                    let gid = crate::ext::fresh_id();
                    let mut room = reg.rooms.remove(i);
                    let ghost pre = room;
                    let (is_empty, mut evs) = room.leave_room(&p, gid, now);
                    events.append(&mut evs);
                    if is_empty {
                        proof {
                            let a = old(reg).rooms@;
                            let bq = a.remove(i as int);
                            assert forall|p2: int, q: int| 0 <= p2 < q < bq.len() implies bq[p2].id@
                                != bq[q].id@ by {
                                let p0 = if p2 < i as int {
                                    p2
                                } else {
                                    p2 + 1
                                };
                                let q0 = if q < i as int {
                                    q
                                } else {
                                    q + 1
                                };
                                assert(bq[p2] == a[p0]);
                                assert(bq[q] == a[q0]);
                            }
                            assert forall|p2: int|
                                0 <= p2 < bq.len() implies (#[trigger] bq[p2]).wf() by {
                                let p0 = if p2 < i as int {
                                    p2
                                } else {
                                    p2 + 1
                                };
                                assert(bq[p2] == a[p0]);
                            }
                        }
                        Outcome { to_caller: Vec::new(), to_room: events, error: None }
                    } else {
                        reg.rooms.insert(i, room);
                        proof {
                            assert(reg.rooms@ =~= old(reg).rooms@.update(
                                i as int,
                                reg.rooms@[i as int],
                            ));
                            lemma_registry_update_wf(*old(reg), *reg, i as int);
                            assert(crate::room::spec_leave_events(
                                pre,
                                reg.rooms@[i as int],
                                events@.subrange(1, events@.len() as int),
                                p@,
                                now,
                            ));
                        }
                        Outcome { to_caller: Vec::new(), to_room: events, error: None }
                    }
                },
            }
        },
        _ => empty_outcome(),
    }
}

} // verus!