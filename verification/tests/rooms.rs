use senet_server::events::Event;
use senet_server::room::{generate_unique_display_name, Player};
use senet_server::registry::{RoomFilters, RoomRegistry, RoomSummary, StatusFilter};
use senet_server::room::{Room, RoomError, RoomStatus};

fn no_filters() -> RoomFilters {
    RoomFilters { status: StatusFilter::All, has_password: None, max_players: None }
}

fn make_room(reg: &mut RoomRegistry, name: &str, owner_name: &str, owner_id: &str) -> String {
    let (created, _ack, _bc) = reg.create_room(
        format!("room-{}", name),
        format!("game-{}", name),
        name.to_string(),
        None,
        2,
        &owner_name.to_string(),
        &owner_id.to_string(),
        0,
    );
    match created {
        Event::RoomCreated { room_id, .. } => room_id,
        _ => panic!("expected RoomCreated"),
    }
}

fn room_of<'a>(reg: &'a RoomRegistry, id: &String) -> &'a Room {
    let i = reg.lookup(id).expect("room present");
    &reg.rooms[i]
}

#[test]
fn create_room_seats_owner_on_w_ready() {
    let mut reg = RoomRegistry::new();
    let rid = make_room(&mut reg, "alpha", "Alice", "alice");
    let room = room_of(&reg, &rid);
    assert_eq!(room.status, RoomStatus::Waiting);
    assert_eq!(room.owner, "alice");
    assert_eq!(room.players.len(), 1);
    assert_eq!(room.players[0].id, "alice");
    assert_eq!(room.players[0].name, "Alice");
    assert!(room.players[0].ready);
    assert_eq!(room.seat_w.as_deref(), Some("alice"));
    assert!(room.seat_b.is_none());
}

#[test]
fn scenario_create_join_ready_start() {
    // Alice creates (seat W, ready), Bob joins (seat B, not ready), Bob
    // readies up, Alice starts: GAME_STARTED with W to move and the
    // initial layout.
    let mut reg = RoomRegistry::new();
    let rid = make_room(&mut reg, "alpha", "Alice", "alice");
    let i = reg.lookup(&rid).unwrap();
    let room = &mut reg.rooms[i];

    let (ack, _bc) = room
        .join_room(None, &"Bob".to_string(), &"bob".to_string(), 1)
        .expect("join succeeds");
    match ack {
        Event::RoomJoined { players, current_player, .. } => {
            assert_eq!(players.len(), 2);
            let me = current_player.expect("joiner ack");
            assert_eq!(me.player_id, "bob");
            assert_eq!(me.player_name, "Bob");
            assert!(!me.is_ready);
            assert_eq!(me.side, Some('B'));
        },
        _ => panic!("expected RoomJoined"),
    }
    assert_eq!(room.seat_b.as_deref(), Some("bob"));
    assert!(!room.players[1].ready);

    let (all_ready, _ev) = room.set_ready(&"bob".to_string(), true, 2);
    assert!(all_ready);

    let ev = room
        .start_game(&"alice".to_string(), "game-2".to_string(), 3)
        .expect("start succeeds");
    assert_eq!(room.status, RoomStatus::Playing);
    match ev {
        Event::GameStarted { initial_turn, game_state, players, .. } => {
            assert_eq!(initial_turn, 'W');
            assert_eq!(game_state.w, vec![1, 3, 5, 7, 9]);
            assert_eq!(game_state.b, vec![2, 4, 6, 8, 10]);
            assert_eq!(players.len(), 2);
        },
        _ => panic!("expected GameStarted"),
    }
}

#[test]
fn join_error_cases() {
    let mut reg = RoomRegistry::new();

    // wrong password
    let (created, _, _) = reg.create_room(
        "room-pw".to_string(),
        "game-pw".to_string(),
        "locked".to_string(),
        Some("secret".to_string()),
        2,
        &"Alice".to_string(),
        &"alice".to_string(),
        0,
    );
    let rid = match created {
        Event::RoomCreated { room_id, .. } => room_id,
        _ => panic!(),
    };
    let i = reg.lookup(&rid).unwrap();
    let room = &mut reg.rooms[i];
    let err = room
        .join_room(Some(&"wrong".to_string()), &"Bob".to_string(), &"bob".to_string(), 1)
        .unwrap_err();
    assert_eq!(err, RoomError::InvalidPassword);
    let err = room.join_room(None, &"Bob".to_string(), &"bob".to_string(), 1).unwrap_err();
    assert_eq!(err, RoomError::InvalidPassword);

    // correct password works
    room.join_room(Some(&"secret".to_string()), &"Bob".to_string(), &"bob".to_string(), 1)
        .expect("join with password");

    // full room
    let err = room
        .join_room(Some(&"secret".to_string()), &"Eve".to_string(), &"eve".to_string(), 2)
        .unwrap_err();
    assert_eq!(err, RoomError::RoomFull);

    // already joined (needs space first)
    room.max_players = 3;
    let err = room
        .join_room(Some(&"secret".to_string()), &"Bob".to_string(), &"bob".to_string(), 3)
        .unwrap_err();
    assert_eq!(err, RoomError::AlreadyJoined);

    // both seats taken
    let err = room
        .join_room(Some(&"secret".to_string()), &"Eve".to_string(), &"eve".to_string(), 4)
        .unwrap_err();
    assert_eq!(err, RoomError::NoAvailableSeats);
}

#[test]
fn duplicate_display_names_get_suffixes() {
    let mut reg = RoomRegistry::new();
    let rid = make_room(&mut reg, "alpha", "Bob", "p1");
    let i = reg.lookup(&rid).unwrap();
    let room = &mut reg.rooms[i];
    room.max_players = 4;
    room.join_room(None, &"Bob".to_string(), &"p2".to_string(), 1).unwrap();
    assert_eq!(room.players[1].name, "Bob#1");
    // empty requested name falls back to "Player"
    room.seat_b = None;
    room.join_room(None, &"".to_string(), &"p3".to_string(), 2).unwrap();
    assert_eq!(room.players[2].name, "Player");
}

#[test]
fn leave_transfers_ownership_and_cancels_game() {
    let mut reg = RoomRegistry::new();
    let rid = make_room(&mut reg, "alpha", "Alice", "alice");
    let i = reg.lookup(&rid).unwrap();
    let room = &mut reg.rooms[i];
    room.join_room(None, &"Bob".to_string(), &"bob".to_string(), 1).unwrap();
    room.set_ready(&"bob".to_string(), true, 2);
    room.start_game(&"alice".to_string(), "g2".to_string(), 3).unwrap();
    assert_eq!(room.status, RoomStatus::Playing);

    let (is_empty, events) = room.leave_room(&"alice".to_string(), "g3".to_string(), 4);
    assert!(!is_empty);
    assert_eq!(room.owner, "bob");
    assert_eq!(room.status, RoomStatus::Waiting);
    assert_eq!(room.game_id, "g3");
    assert!(!room.players[0].ready);
    assert!(room.seat_w.is_none());
    assert_eq!(room.seat_b.as_deref(), Some("bob"));
    // new owner, cancellation, departure, roster update
    assert_eq!(events.len(), 4);
    match &events[0] {
        Event::PlayerStatus { player_id, .. } => assert_eq!(player_id, "bob"),
        _ => panic!("expected new-owner notice"),
    }

    let (is_empty, _) = room.leave_room(&"bob".to_string(), "g4".to_string(), 5);
    assert!(is_empty);
}

#[test]
fn reset_game_requires_owner_and_running_game() {
    let mut reg = RoomRegistry::new();
    let rid = make_room(&mut reg, "alpha", "Alice", "alice");
    let i = reg.lookup(&rid).unwrap();
    let room = &mut reg.rooms[i];
    assert_eq!(
        room.reset_game(&"bob".to_string(), "g2".to_string(), 1).unwrap_err(),
        RoomError::NotRoomOwner
    );
    assert_eq!(
        room.reset_game(&"alice".to_string(), "g2".to_string(), 1).unwrap_err(),
        RoomError::GameNotInProgress
    );
    room.join_room(None, &"Bob".to_string(), &"bob".to_string(), 1).unwrap();
    room.set_ready(&"bob".to_string(), true, 2);
    room.start_game(&"alice".to_string(), "g2".to_string(), 3).unwrap();
    let (reset, started) = room.reset_game(&"alice".to_string(), "g3".to_string(), 4).unwrap();
    assert_eq!(room.game_id, "g3");
    assert_eq!(room.status, RoomStatus::Playing);
    match reset {
        Event::GameReset { game_id, new_game_id, reset_by, .. } => {
            assert_eq!(game_id, "g2");
            assert_eq!(new_game_id, "g3");
            assert_eq!(reset_by, "alice");
        },
        _ => panic!("expected GameReset"),
    }
    match started {
        Event::GameStarted { initial_turn, .. } => assert_eq!(initial_turn, 'W'),
        _ => panic!("expected GameStarted"),
    }
}

#[test]
fn start_game_error_cases() {
    let mut reg = RoomRegistry::new();
    let rid = make_room(&mut reg, "alpha", "Alice", "alice");
    let i = reg.lookup(&rid).unwrap();
    let room = &mut reg.rooms[i];
    assert_eq!(
        room.start_game(&"bob".to_string(), "g".to_string(), 1).unwrap_err(),
        RoomError::NotRoomOwner
    );
    assert_eq!(
        room.start_game(&"alice".to_string(), "g".to_string(), 1).unwrap_err(),
        RoomError::NeedTwoPlayers
    );
    room.join_room(None, &"Bob".to_string(), &"bob".to_string(), 1).unwrap();
    assert_eq!(
        room.start_game(&"alice".to_string(), "g".to_string(), 2).unwrap_err(),
        RoomError::PlayersNotReady
    );
}

#[test]
fn delete_room_requires_owner() {
    let mut reg = RoomRegistry::new();
    let rid = make_room(&mut reg, "alpha", "Alice", "alice");
    assert_eq!(
        reg.delete_room(&"nope".to_string(), &"alice".to_string(), 1).unwrap_err(),
        RoomError::RoomNotFound
    );
    assert_eq!(
        reg.delete_room(&rid, &"bob".to_string(), 1).unwrap_err(),
        RoomError::NotRoomOwner
    );
    reg.delete_room(&rid, &"alice".to_string(), 1).expect("owner deletes");
    assert!(reg.lookup(&rid).is_none());
}

fn summaries_equal(a: &[RoomSummary], b: &[RoomSummary]) -> bool {
    a.len() == b.len()
        && a.iter().zip(b.iter()).all(|(x, y)| {
            x.id == y.id
                && x.name == y.name
                && x.status == y.status
                && x.owner == y.owner
                && x.current_players == y.current_players
                && x.max_players == y.max_players
                && x.has_password == y.has_password
                && x.created_at == y.created_at
        })
}

#[test]
fn listing_twice_is_identical() {
    let mut reg = RoomRegistry::new();
    make_room(&mut reg, "alpha", "Alice", "alice");
    make_room(&mut reg, "beta", "Bea", "bea");
    let f = no_filters();
    let first = reg.get_room_list(&f);
    let second = reg.get_room_list(&f);
    assert_eq!(first.len(), 2);
    assert!(summaries_equal(&first, &second));
}

#[test]
fn listing_applies_filters() {
    let mut reg = RoomRegistry::new();
    let rid = make_room(&mut reg, "alpha", "Alice", "alice");
    reg.create_room(
        "room-pw".to_string(),
        "game-pw".to_string(),
        "locked".to_string(),
        Some("secret".to_string()),
        4,
        &"Bea".to_string(),
        &"bea".to_string(),
        0,
    );
    // make the first room Playing
    let i = reg.lookup(&rid).unwrap();
    let room = &mut reg.rooms[i];
    room.join_room(None, &"Bob".to_string(), &"bob".to_string(), 1).unwrap();
    room.set_ready(&"bob".to_string(), true, 2);
    room.start_game(&"alice".to_string(), "g2".to_string(), 3).unwrap();

    let waiting = reg.get_room_list(
        &RoomFilters { status: StatusFilter::Waiting, has_password: None, max_players: None },
    );
    assert_eq!(waiting.len(), 1);
    assert_eq!(waiting[0].name, "locked");

    let playing = reg.get_room_list(
        &RoomFilters { status: StatusFilter::Playing, has_password: None, max_players: None },
    );
    assert_eq!(playing.len(), 1);
    assert_eq!(playing[0].name, "alpha");
    assert_eq!(playing[0].current_players, 2);

    let with_pw = reg.get_room_list(
        &RoomFilters { status: StatusFilter::All, has_password: Some(true), max_players: None },
    );
    assert_eq!(with_pw.len(), 1);
    assert!(with_pw[0].has_password);

    let four_seats = reg.get_room_list(
        &RoomFilters { status: StatusFilter::All, has_password: None, max_players: Some(4) },
    );
    assert_eq!(four_seats.len(), 1);
    assert_eq!(four_seats[0].max_players, 4);
}

#[test]
fn error_codes_are_stable() {
    assert_eq!(RoomError::RoomNotFound.code(), "ROOM_NOT_FOUND");
    assert_eq!(RoomError::InvalidPassword.code(), "INVALID_PASSWORD");
    assert_eq!(RoomError::RoomFull.code(), "ROOM_FULL");
    assert_eq!(RoomError::AlreadyJoined.code(), "ALREADY_JOINED");
    assert_eq!(RoomError::NoAvailableSeats.code(), "NO_AVAILABLE_SEATS");
    assert_eq!(RoomError::NotRoomOwner.code(), "NOT_ROOM_OWNER");
    assert_eq!(RoomError::NeedTwoPlayers.code(), "NEED_TWO_PLAYERS");
    assert_eq!(RoomError::PlayersNotReady.code(), "PLAYERS_NOT_READY");
    assert_eq!(RoomError::GameNotInProgress.code(), "GAME_NOT_IN_PROGRESS");
}

#[test]
fn display_name_picks_first_free_suffix() {
    let players: Vec<Player> = ["X", "X#1", "X#2"]
        .iter()
        .enumerate()
        .map(|(i, n)| Player { id: format!("p{}", i), name: n.to_string(), ready: false })
        .collect();
    let chosen = generate_unique_display_name(&players, &"X".to_string());
    assert_eq!(chosen, "X#3");
    let free = generate_unique_display_name(&players, &"Y".to_string());
    assert_eq!(free, "Y");
}

#[test]
fn display_name_falls_back_to_random_suffix() {
    let mut players: Vec<Player> =
        vec![Player { id: "p0".to_string(), name: "X".to_string(), ready: false }];
    for i in 1..=999 {
        players.push(Player { id: format!("p{}", i), name: format!("X#{}", i), ready: false });
    }
    let chosen = generate_unique_display_name(&players, &"X".to_string());
    assert!(chosen.starts_with("X#"));
    assert_eq!(chosen.chars().count(), 1 + 9);
    assert!(players.iter().all(|p| p.name != chosen));
}


#[test]
fn display_name_is_trimmed() {
    let players: Vec<Player> = Vec::new();
    assert_eq!(generate_unique_display_name(&players, &" Bob ".to_string()), "Bob");
    assert_eq!(generate_unique_display_name(&players, &"\t  \n".to_string()), "Player");
    let taken = vec![Player { id: "p0".to_string(), name: "Bob".to_string(), ready: false }];
    assert_eq!(generate_unique_display_name(&taken, &"  Bob".to_string()), "Bob#1");
}
