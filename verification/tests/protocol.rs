use senet_server::events::{Event, PlayerStatusKind, TurnReason};
use senet_server::game::EXITED;
use senet_server::protocol::{dispatch, disconnect, Command, ErrorCode, Outcome, Session};
use senet_server::registry::{RoomFilters, RoomRegistry, StatusFilter};
use senet_server::room::RoomStatus;

fn no_filters() -> RoomFilters {
    RoomFilters { status: StatusFilter::All, has_password: None, max_players: None }
}

/// Drives a full create/join/ready/start through the dispatcher and
/// returns the registry, both sessions and the room id.
fn playing_room() -> (RoomRegistry, Session, Session, String) {
    let mut reg = RoomRegistry::new();
    let mut alice = Session::new();
    let mut bob = Session::new();

    let out = dispatch(
        &mut reg,
        &mut alice,
        Command::CreateRoom {
            room_name: "alpha".to_string(),
            password: None,
            max_players: 2,
            player_name: "Alice".to_string(),
            player_id: Some("alice".to_string()),
        },
        0,
    );
    assert!(out.error.is_none());
    let rid = match &out.to_caller[0] {
        Event::RoomCreated { room_id, .. } => room_id.clone(),
        _ => panic!("expected RoomCreated"),
    };

    let out = dispatch(
        &mut reg,
        &mut bob,
        Command::JoinRoom {
            room_id: rid.clone(),
            password: None,
            player_name: "Bob".to_string(),
            player_id: "bob".to_string(),
        },
        1,
    );
    assert!(out.error.is_none());

    let out = dispatch(
        &mut reg,
        &mut bob,
        Command::ReadyStatus { room_id: rid.clone(), player_id: "bob".to_string(), is_ready: true },
        2,
    );
    assert!(out.error.is_none());
    match &out.to_room[0] {
        Event::PlayerReady { all_ready, .. } => assert!(*all_ready),
        _ => panic!("expected PlayerReady"),
    }

    let out = dispatch(
        &mut reg,
        &mut alice,
        Command::StartGame { player_id: "alice".to_string() },
        3,
    );
    assert!(out.error.is_none());
    match &out.to_room[0] {
        Event::GameStarted { initial_turn, game_state, .. } => {
            assert_eq!(*initial_turn, 'W');
            assert_eq!(game_state.w, vec![1, 3, 5, 7, 9]);
            assert_eq!(game_state.b, vec![2, 4, 6, 8, 10]);
        },
        _ => panic!("expected GameStarted"),
    }

    (reg, alice, bob, rid)
}

fn room_index(reg: &RoomRegistry, rid: &String) -> usize {
    reg.lookup(rid).expect("room present")
}

#[test]
fn created_room_gets_a_fresh_36_char_id() {
    let (reg, _alice, _bob, rid) = playing_room();
    assert_eq!(rid.chars().count(), 36);
    assert!(reg.lookup(&rid).is_some());
}

#[test]
fn room_list_via_dispatch() {
    let (mut reg, mut alice, _bob, _rid) = playing_room();
    let out = dispatch(&mut reg, &mut alice, Command::GetRoomList { filters: no_filters() }, 9);
    match &out.to_caller[0] {
        Event::RoomList { rooms, total_count, .. } => {
            assert_eq!(*total_count, 1);
            assert_eq!(rooms[0].status, RoomStatus::Playing);
        },
        _ => panic!("expected RoomList"),
    }
}

#[test]
fn move_with_extra_turn_keeps_the_turn() {
    // W rolls a five and moves 1 -> 6 over a cleared square: no capture,
    // no water, so the extra turn holds and no TURN_CHANGED is sent.
    let (mut reg, mut alice, _bob, rid) = playing_room();
    let i = room_index(&reg, &rid);
    reg.rooms[i].game.last_roll = Some(5);
    reg.rooms[i].game.b[2] = 12; // clear square 6

    let out = dispatch(
        &mut reg,
        &mut alice,
        Command::MovePiece {
            room_id: rid.clone(),
            player_id: "alice".to_string(),
            side: 'W',
            piece_index: 0,
            from: 1,
            to: 6,
            roll: 5,
        },
        10,
    );
    assert!(out.error.is_none());
    assert_eq!(out.to_room.len(), 1);
    match &out.to_room[0] {
        Event::PieceMoved { mv, game_state, .. } => {
            assert_eq!(mv.from, 1);
            assert_eq!(mv.to, 6);
            assert!(mv.extra_turn);
            assert_eq!(mv.captured, None);
            assert_eq!(game_state.w[0], 6);
        },
        _ => panic!("expected PieceMoved"),
    }
    let i = room_index(&reg, &rid);
    assert_eq!(reg.rooms[i].game.turn, 'W');
    // the cached roll returns to idle: W must roll again
    assert_eq!(reg.rooms[i].game.last_roll, None);

    // moving again on the stale roll is rejected
    let out = dispatch(
        &mut reg,
        &mut alice,
        Command::MovePiece {
            room_id: rid.clone(),
            player_id: "alice".to_string(),
            side: 'W',
            piece_index: 1,
            from: 3,
            to: 8,
            roll: 5,
        },
        11,
    );
    assert_eq!(out.error.expect("rejected").code, ErrorCode::InvalidMove);
}

#[test]
fn move_without_extra_turn_passes_the_turn() {
    let (mut reg, mut alice, _bob, rid) = playing_room();
    let i = room_index(&reg, &rid);
    reg.rooms[i].game.last_roll = Some(1);

    let out = dispatch(
        &mut reg,
        &mut alice,
        Command::MovePiece {
            room_id: rid.clone(),
            player_id: "alice".to_string(),
            side: 'W',
            piece_index: 0,
            from: 1,
            to: 2,
            roll: 1,
        },
        10,
    );
    assert!(out.error.is_none());
    assert_eq!(out.to_room.len(), 2);
    match &out.to_room[0] {
        Event::PieceMoved { mv, .. } => {
            // the B piece on 2 is captured and relocated to 1
            assert_eq!(mv.captured, Some('B'));
            assert!(!mv.extra_turn);
        },
        _ => panic!("expected PieceMoved"),
    }
    match &out.to_room[1] {
        Event::TurnChanged { new_turn, reason, .. } => {
            assert_eq!(*new_turn, 'B');
            assert_eq!(*reason, TurnReason::NormalMove);
        },
        _ => panic!("expected TurnChanged"),
    }
    let i = room_index(&reg, &rid);
    assert_eq!(reg.rooms[i].game.turn, 'B');
    assert_eq!(reg.rooms[i].game.b[0], 1);
    assert_eq!(reg.rooms[i].game.last_roll, None);
}

#[test]
fn water_move_is_rejected_when_safe_squares_full() {
    let (mut reg, mut alice, _bob, rid) = playing_room();
    let i = room_index(&reg, &rid);
    reg.rooms[i].game.last_roll = Some(5);
    reg.rooms[i].game.w = vec![22, 15, 4, 6, 8];
    reg.rooms[i].game.b = vec![26, 14, 16, 18, 20];

    let out = dispatch(
        &mut reg,
        &mut alice,
        Command::MovePiece {
            room_id: rid.clone(),
            player_id: "alice".to_string(),
            side: 'W',
            piece_index: 0,
            from: 22,
            to: 27,
            roll: 5,
        },
        10,
    );
    let err = out.error.expect("move rejected");
    assert_eq!(err.code, ErrorCode::InvalidMove);
    assert_eq!(err.code.code(), "INVALID_MOVE");
    let i = room_index(&reg, &rid);
    assert_eq!(reg.rooms[i].game.w[0], 22);
}

#[test]
fn water_move_reroutes_and_passes_turn() {
    let (mut reg, mut alice, _bob, rid) = playing_room();
    let i = room_index(&reg, &rid);
    reg.rooms[i].game.last_roll = Some(5);
    reg.rooms[i].game.w = vec![22, 2, 4, 6, 8];
    reg.rooms[i].game.b = vec![12, 14, 16, 18, 20];

    let out = dispatch(
        &mut reg,
        &mut alice,
        Command::MovePiece {
            room_id: rid.clone(),
            player_id: "alice".to_string(),
            side: 'W',
            piece_index: 0,
            from: 22,
            to: 27,
            roll: 5,
        },
        10,
    );
    assert!(out.error.is_none());
    let i = room_index(&reg, &rid);
    assert_eq!(reg.rooms[i].game.w[0], 15);
    // extra turn cancelled despite the five: the turn passes to B
    assert_eq!(reg.rooms[i].game.turn, 'B');
    assert!(matches!(&out.to_room[1], Event::TurnChanged { new_turn: 'B', .. }));
}

#[test]
fn finishing_move_ends_game_and_finishes_room() {
    // B's fifth piece reaches the exit: GAME_ENDED with winner B and the
    // room moves to Finished.
    let (mut reg, mut bob, _other, rid) = {
        let (reg, alice, bob, rid) = playing_room();
        (reg, bob, alice, rid)
    };
    let i = room_index(&reg, &rid);
    reg.rooms[i].game.turn = 'B';
    reg.rooms[i].game.last_roll = Some(5);
    reg.rooms[i].game.w = vec![1, 3, 5, 7, 9];
    reg.rooms[i].game.b = vec![EXITED, EXITED, EXITED, EXITED, 25];

    let out = dispatch(
        &mut reg,
        &mut bob,
        Command::MovePiece {
            room_id: rid.clone(),
            player_id: "bob".to_string(),
            side: 'B',
            piece_index: 4,
            from: 25,
            to: 30,
            roll: 5,
        },
        10,
    );
    assert!(out.error.is_none());
    assert_eq!(out.to_room.len(), 4);
    match &out.to_room[2] {
        Event::GameEnded { winner, winner_name, final_state, .. } => {
            assert_eq!(*winner, 'B');
            assert_eq!(winner_name, "Bob");
            assert!(final_state.game_over);
        },
        _ => panic!("expected GameEnded"),
    }
    match &out.to_room[3] {
        Event::PlayerStatus { kind, .. } => assert_eq!(*kind, PlayerStatusKind::GameFinished),
        _ => panic!("expected PlayerStatus"),
    }
    let i = room_index(&reg, &rid);
    assert_eq!(reg.rooms[i].status, RoomStatus::Finished);
}

#[test]
fn turn_scoped_validation_order() {
    let (mut reg, mut alice, mut bob, rid) = playing_room();

    // not the seat owner
    let out = dispatch(
        &mut reg,
        &mut bob,
        Command::MovePiece {
            room_id: rid.clone(),
            player_id: "bob".to_string(),
            side: 'W',
            piece_index: 0,
            from: 1,
            to: 2,
            roll: 1,
        },
        10,
    );
    assert_eq!(out.error.expect("rejected").code, ErrorCode::NotYourSide);

    // not this side's turn
    let out = dispatch(
        &mut reg,
        &mut bob,
        Command::MovePiece {
            room_id: rid.clone(),
            player_id: "bob".to_string(),
            side: 'B',
            piece_index: 0,
            from: 2,
            to: 3,
            roll: 1,
        },
        11,
    );
    assert_eq!(out.error.expect("rejected").code, ErrorCode::NotYourTurn);

    // roll by the wrong player
    let out = dispatch(
        &mut reg,
        &mut bob,
        Command::RollSticks { room_id: rid.clone(), player_id: "bob".to_string() },
        12,
    );
    assert_eq!(out.error.expect("rejected").code, ErrorCode::NotYourTurn);

    // pass with a roll that does not match the cached one
    let i = room_index(&reg, &rid);
    reg.rooms[i].game.last_roll = Some(3);
    let out = dispatch(
        &mut reg,
        &mut alice,
        Command::PassTurn {
            room_id: rid.clone(),
            player_id: "alice".to_string(),
            roll: Some(2),
        },
        13,
    );
    assert_eq!(out.error.expect("rejected").code, ErrorCode::InvalidRoll);

    // commands against a game that has not started
    let i = room_index(&reg, &rid);
    reg.rooms[i].status = RoomStatus::Waiting;
    let out = dispatch(
        &mut reg,
        &mut alice,
        Command::RollSticks { room_id: rid.clone(), player_id: "alice".to_string() },
        14,
    );
    assert_eq!(out.error.expect("rejected").code, ErrorCode::GameNotStarted);
}

#[test]
fn pass_turn_flips_and_clears_roll() {
    let (mut reg, mut alice, _bob, rid) = playing_room();
    let i = room_index(&reg, &rid);
    reg.rooms[i].game.last_roll = Some(3);

    let out = dispatch(
        &mut reg,
        &mut alice,
        Command::PassTurn {
            room_id: rid.clone(),
            player_id: "alice".to_string(),
            roll: Some(3),
        },
        10,
    );
    assert!(out.error.is_none());
    assert!(matches!(
        &out.to_room[0],
        Event::TurnChanged { new_turn: 'B', reason: TurnReason::PassTurn, .. }
    ));
    let i = room_index(&reg, &rid);
    assert_eq!(reg.rooms[i].game.turn, 'B');
    assert_eq!(reg.rooms[i].game.last_roll, None);
}

#[test]
fn roll_auto_passes_when_no_move_exists() {
    // A position where no roll value gives W any legal move: the lone
    // live W piece at 26 is walled in and both safe squares are taken.
    let (mut reg, mut alice, _bob, rid) = playing_room();
    let i = room_index(&reg, &rid);
    reg.rooms[i].game.w = vec![EXITED, EXITED, EXITED, EXITED, 26];
    reg.rooms[i].game.b = vec![15, 28, 29, 2, 4];

    let out = dispatch(
        &mut reg,
        &mut alice,
        Command::RollSticks { room_id: rid.clone(), player_id: "alice".to_string() },
        10,
    );
    assert!(out.error.is_none());
    assert_eq!(out.to_room.len(), 2);
    match &out.to_room[0] {
        Event::SticksRolled { can_move, turn, .. } => {
            assert!(!*can_move);
            assert_eq!(*turn, 'W');
        },
        _ => panic!("expected SticksRolled"),
    }
    assert!(matches!(
        &out.to_room[1],
        Event::TurnChanged { new_turn: 'B', reason: TurnReason::NoLegalMoves, .. }
    ));
    let i = room_index(&reg, &rid);
    assert_eq!(reg.rooms[i].game.turn, 'B');
    assert_eq!(reg.rooms[i].game.last_roll, None);
}

#[test]
fn roll_announces_value_and_caches_it() {
    let (mut reg, mut alice, _bob, rid) = playing_room();
    let out = dispatch(
        &mut reg,
        &mut alice,
        Command::RollSticks { room_id: rid.clone(), player_id: "alice".to_string() },
        10,
    );
    assert!(out.error.is_none());
    match &out.to_room[0] {
        Event::SticksRolled { roll, can_move, .. } => {
            assert!((1..=5).contains(roll));
            // every value 1..=5 has a legal move from the initial layout
            assert!(*can_move);
            let i = room_index(&reg, &rid);
            assert_eq!(reg.rooms[i].game.last_roll, Some(*roll));
        },
        _ => panic!("expected SticksRolled"),
    }
}

#[test]
fn reconnection_rebinds_the_session() {
    let (mut reg, _alice, _bob, rid) = playing_room();
    // a fresh, unbound session quoting the room and a member id
    let mut again = Session::new();
    let out = dispatch(
        &mut reg,
        &mut again,
        Command::RollSticks { room_id: rid.clone(), player_id: "alice".to_string() },
        10,
    );
    assert_eq!(again.room_id.as_ref(), Some(&rid));
    assert_eq!(again.player_id.as_deref(), Some("alice"));
    assert!(out.error.is_none());
    assert!(!out.to_room.is_empty());

    // the rebind also serves MOVE_PIECE and PASS_TURN: a fresh session
    // quoting a member id may pass the turn directly
    let i = room_index(&reg, &rid);
    reg.rooms[i].game.last_roll = Some(3);
    let mut again2 = Session::new();
    let out = dispatch(
        &mut reg,
        &mut again2,
        Command::PassTurn { room_id: rid.clone(), player_id: "alice".to_string(), roll: Some(3) },
        11,
    );
    assert_eq!(again2.room_id.as_ref(), Some(&rid));
    assert!(out.error.is_none());
    let i = room_index(&reg, &rid);
    assert_eq!(reg.rooms[i].game.turn, 'B');

    // a non-member does not rebind, and nothing happens
    let mut stranger = Session::new();
    let out = dispatch(
        &mut reg,
        &mut stranger,
        Command::RollSticks { room_id: rid.clone(), player_id: "mallory".to_string() },
        11,
    );
    assert!(stranger.room_id.is_none());
    assert!(out.error.is_none());
    assert!(out.to_room.is_empty());
}

#[test]
fn commands_on_unbound_or_mismatched_sessions_are_dropped() {
    let (mut reg, mut alice, _bob, rid) = playing_room();
    let mut loose = Session::new();
    let out = dispatch(
        &mut reg,
        &mut loose,
        Command::ReadyStatus { room_id: rid.clone(), player_id: "x".to_string(), is_ready: true },
        10,
    );
    assert!(out.error.is_none() && out.to_room.is_empty() && out.to_caller.is_empty());

    let out = dispatch(
        &mut reg,
        &mut alice,
        Command::ChatMessage {
            room_id: "other-room".to_string(),
            player_id: "alice".to_string(),
            message: "hi".to_string(),
            message_type: "text".to_string(),
        },
        11,
    );
    assert!(out.error.is_none() && out.to_room.is_empty());

    // a roll naming a room other than the bound one is dropped too
    let i = room_index(&reg, &rid);
    let roll_before = reg.rooms[i].game.last_roll;
    let out = dispatch(
        &mut reg,
        &mut alice,
        Command::RollSticks {
            room_id: "other-room".to_string(),
            player_id: "alice".to_string(),
        },
        12,
    );
    assert!(out.error.is_none() && out.to_room.is_empty() && out.to_caller.is_empty());
    let i = room_index(&reg, &rid);
    assert_eq!(reg.rooms[i].game.last_roll, roll_before);
}

#[test]
fn chat_and_heartbeat_broadcast() {
    let (mut reg, mut alice, _bob, rid) = playing_room();
    let out = dispatch(
        &mut reg,
        &mut alice,
        Command::ChatMessage {
            room_id: rid.clone(),
            player_id: "alice".to_string(),
            message: "hello".to_string(),
            message_type: "text".to_string(),
        },
        10,
    );
    match &out.to_room[0] {
        Event::ChatReceived { player_name, message, timestamp, .. } => {
            assert_eq!(player_name, "Alice");
            assert_eq!(message, "hello");
            assert_eq!(*timestamp, 10);
        },
        _ => panic!("expected ChatReceived"),
    }

    let out = dispatch(
        &mut reg,
        &mut alice,
        Command::Heartbeat { room_id: rid.clone(), player_id: "alice".to_string() },
        11,
    );
    match &out.to_room[0] {
        Event::PlayerStatus { kind, last_seen, .. } => {
            assert_eq!(*kind, PlayerStatusKind::Connected);
            assert_eq!(*last_seen, 11);
        },
        _ => panic!("expected PlayerStatus"),
    }
    let i = room_index(&reg, &rid);
    assert_eq!(reg.rooms[i].last_activity, 11);
}

#[test]
fn leave_room_unbinds_and_evicts_empty_rooms() {
    let (mut reg, mut alice, mut bob, rid) = playing_room();
    let out = dispatch(
        &mut reg,
        &mut bob,
        Command::LeaveRoom { room_id: rid.clone(), player_id: "bob".to_string() },
        10,
    );
    assert!(bob.room_id.is_none());
    assert!(out.error.is_none());
    assert!(matches!(
        &out.to_room[0],
        Event::PlayerStatus { kind: PlayerStatusKind::LeftRoom, .. }
    ));
    // the game was running: cancelled back to Waiting
    let i = room_index(&reg, &rid);
    assert_eq!(reg.rooms[i].status, RoomStatus::Waiting);

    let out = dispatch(
        &mut reg,
        &mut alice,
        Command::LeaveRoom { room_id: rid.clone(), player_id: "alice".to_string() },
        11,
    );
    assert!(out.error.is_none());
    assert!(reg.lookup(&rid).is_none());
}

#[test]
fn disconnect_announces_and_cleans_up() {
    let (mut reg, mut alice, mut bob, rid) = playing_room();
    let out = disconnect(&mut reg, &mut bob, 10);
    assert!(bob.room_id.is_none());
    assert!(matches!(
        &out.to_room[0],
        Event::PlayerStatus { kind: PlayerStatusKind::Disconnected, .. }
    ));
    assert!(reg.lookup(&rid).is_some());

    let out = disconnect(&mut reg, &mut alice, 11);
    assert!(!out.to_room.is_empty());
    assert!(reg.lookup(&rid).is_none());

    // disconnecting an unbound session is a no-op
    let mut loose = Session::new();
    let out = disconnect(&mut reg, &mut loose, 12);
    assert!(out.to_room.is_empty() && out.to_caller.is_empty() && out.error.is_none());
}

#[test]
fn delete_room_via_dispatch() {
    let (mut reg, mut alice, _bob, rid) = playing_room();
    let out = dispatch(
        &mut reg,
        &mut alice,
        Command::DeleteRoom { room_id: rid.clone(), player_id: "bob".to_string() },
        10,
    );
    assert_eq!(out.error.expect("rejected").code, ErrorCode::DeleteRoomFailed);

    let out = dispatch(
        &mut reg,
        &mut alice,
        Command::DeleteRoom { room_id: rid.clone(), player_id: "alice".to_string() },
        11,
    );
    assert!(out.error.is_none());
    assert!(matches!(
        &out.to_room[0],
        Event::PlayerStatus { kind: PlayerStatusKind::RoomDeleted, .. }
    ));
    assert!(reg.lookup(&rid).is_none());
}

#[test]
fn outcome_fields_are_accessible() {
    let out = Outcome { to_caller: Vec::new(), to_room: Vec::new(), error: None };
    assert!(out.to_caller.is_empty() && out.to_room.is_empty() && out.error.is_none());
}

#[test]
fn pass_turn_with_no_cached_roll_quotes_none() {
    // before any roll the cached value is absent; quoting no roll matches
    let (mut reg, mut alice, _bob, rid) = playing_room();
    let out = dispatch(
        &mut reg,
        &mut alice,
        Command::PassTurn { room_id: rid.clone(), player_id: "alice".to_string(), roll: None },
        10,
    );
    assert!(out.error.is_none());
    let i = room_index(&reg, &rid);
    assert_eq!(reg.rooms[i].game.turn, 'B');
}
