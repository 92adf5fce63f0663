//! The process-wide room directory: an explicitly passed service mapping
//! room identifiers to rooms.  Entries are created on room creation and
//! removed on explicit deletion or when a room's membership reaches zero.

use vstd::prelude::*;
use crate::events::Event;
use crate::game::GameState;
use crate::room::Player;
use crate::room::Room;
use crate::room::RoomError;
use crate::room::RoomStatus;
use crate::room::spec_name_choice_ok;

verus! {

/// Which rooms a listing should include.
#[derive(Clone, Copy, PartialEq, Eq, Structural, Debug)]
pub enum StatusFilter {
    Waiting,
    Playing,
    All,
}

/// The listing filters a client may supply.
#[derive(Clone, Copy, PartialEq, Eq, Structural, Debug)]
pub struct RoomFilters {
    pub status: StatusFilter,
    pub has_password: Option<bool>,
    pub max_players: Option<usize>,
}

/// One room as projected into a listing.
#[derive(Debug)]
pub struct RoomSummary {
    pub id: String,
    pub name: String,
    pub status: RoomStatus,
    pub owner: String,
    pub current_players: usize,
    pub max_players: usize,
    pub has_password: bool,
    pub created_at: u128,
}

pub struct RoomRegistry {
    pub rooms: Vec<Room>,
}

/// What a freshly created room looks like: its creator is the owner,
/// seated W with readiness true, the room waits for a second player, and
/// the game stands at the initial layout.
pub open spec fn spec_new_room_ok(
    room: Room,
    room_name: Seq<char>,
    password: Option<String>,
    max_players: usize,
    player_name: Seq<char>,
    player_id: Seq<char>,
    now: u128,
) -> bool {
    &&& room.name@ == room_name
    &&& room.status == RoomStatus::Waiting
    &&& room.owner@ == player_id
    &&& room.password == password
    &&& room.max_players == max_players
    &&& room.players@.len() == 1
    &&& room.players@[0].id@ == player_id
    &&& room.players@[0].ready == true
    &&& spec_name_choice_ok(Seq::empty(), player_name, room.players@[0].name@)
    &&& (room.seat_w matches Some(s) && s@ == player_id)
    &&& room.seat_b is None
    &&& room.game.is_initial()
    &&& room.last_activity == now
}

pub open spec fn spec_has_room(rooms: Seq<Room>, id: Seq<char>) -> bool {
    exists|i: int| 0 <= i < rooms.len() && #[trigger] rooms[i].id@ == id
}

impl RoomRegistry {
    pub open spec fn spec_has_room(self, id: Seq<char>) -> bool {
        spec_has_room(self.rooms@, id)
    }

    /// The index of the room with this id (meaningful only when present;
    /// unique under `wf`).
    pub open spec fn spec_room_index(self, id: Seq<char>) -> int {
        choose|i: int| 0 <= i < self.rooms@.len() && #[trigger] self.rooms@[i].id@ == id
    }

    /// Room ids are unique and every room is well-formed.
    pub open spec fn wf(self) -> bool {
        &&& forall|i: int, j: int|
            0 <= i < j < self.rooms@.len() ==> self.rooms@[i].id@ != self.rooms@[j].id@
        &&& forall|i: int| 0 <= i < self.rooms@.len() ==> (#[trigger] self.rooms@[i]).wf()
    }

    pub fn new() -> (r: RoomRegistry)
        ensures
            r.wf(),
            r.rooms@.len() == 0,
    {
        RoomRegistry { rooms: Vec::new() }
    }

    /// Finds the room with this id: `Some(i)` exactly when it is present.
    pub fn lookup(&self, id: &String) -> (r: Option<usize>)
        requires
            self.wf(),
        ensures
            match r {
                Some(i) => i < self.rooms@.len() && self.rooms@[i as int].id@ == id@ && i as int
                    == self.spec_room_index(id@),
                None => !self.spec_has_room(id@),
            },
            r is Some <==> self.spec_has_room(id@),
    {
        let mut i: usize = 0;
        while i < self.rooms.len()
            invariant
                self.wf(),
                i <= self.rooms@.len(),
                forall|k: int| 0 <= k < i ==> #[trigger] self.rooms@[k].id@ != id@,
            decreases self.rooms@.len() - i,
        {
            if self.rooms[i].id == *id {
                proof {
                    assert(self.rooms@[i as int].id@ == id@);
                    assert(self.spec_has_room(id@));
                    let k = self.spec_room_index(id@);
                    assert(0 <= k < self.rooms@.len() && self.rooms@[k].id@ == id@);
                    if k < i as int {
                        assert(self.rooms@[k].id@ != self.rooms@[i as int].id@);
                        assert(false);
                    } else if k > i as int {
                        assert(self.rooms@[i as int].id@ != self.rooms@[k].id@);
                        assert(false);
                    }
                }
                return Some(i);
            }
            i += 1;
        }
        None
    }

    /// Creates a room under `room_id` and seats its creator: owner, seat W,
    /// readiness true, status Waiting, a fresh game under `game_id`.  A
    /// room already under that id is replaced, as identifiers are drawn at
    /// random.  Returns the creation notice, the creator's individual
    /// roster acknowledgment, and the roster broadcast, in that order.
    pub fn create_room(
        &mut self,
        room_id: String,
        game_id: String,
        room_name: String,
        password: Option<String>,
        max_players: usize,
        player_name: &String,
        player_id: &String,
        now: u128,
    ) -> (r: (Event, Event, Event))
        requires
            old(self).wf(),
        ensures
            final(self).wf(),
            final(self).spec_has_room(room_id@),
            ({
                let room = final(self).rooms@[final(self).spec_room_index(room_id@)];
                &&& room.id@ == room_id@
                &&& room.game_id@ == game_id@
                &&& spec_new_room_ok(
                    room,
                    room_name@,
                    password,
                    max_players,
                    player_name@,
                    player_id@,
                    now,
                )
                &&& (if old(self).spec_has_room(room_id@) {
                    final(self).rooms@ =~= old(self).rooms@.update(
                        old(self).spec_room_index(room_id@),
                        room,
                    )
                } else {
                    final(self).rooms@ =~= old(self).rooms@.push(room)
                })
                &&& (r.0 == (Event::RoomCreated {
                    room_id: room.id,
                    room_name: room.name,
                    owner: room.players@[0].name,
                    max_players,
                    status: RoomStatus::Waiting,
                }))
                &&& (r.1 matches Event::RoomJoined { room_id: rid, room_name: rn, players, current_player }
                    && rid@ == room.id@ && rn@ == room.name@ && (players@ =~= room.spec_roster())
                    && current_player == Some(room.spec_info_of(room.players@[0])))
                &&& (r.2 matches Event::RoomJoined { room_id: rid, room_name: rn, players, current_player }
                    && rid@ == room.id@ && rn@ == room.name@ && (players@ =~= room.spec_roster())
                    && current_player is None)
            }),
    {
        let empty_roster: Vec<Player> = Vec::new();
        let display_name = crate::room::generate_unique_display_name(&empty_roster, player_name);
        let mut players: Vec<Player> = Vec::new();
        players.push(Player { id: player_id.clone(), name: display_name.clone(), ready: true });
        let room = Room {
            id: room_id.clone(),
            name: room_name,
            status: RoomStatus::Waiting,
            owner: player_id.clone(),
            password,
            max_players,
            players,
            seat_w: Some(player_id.clone()),
            seat_b: None,
            game: GameState::new(),
            game_id,
            last_activity: now,
        };
        assert(room.wf());
        let created = Event::RoomCreated {
            room_id: room.id.clone(),
            room_name: room.name.clone(),
            owner: display_name,
            max_players,
            status: RoomStatus::Waiting,
        };
        let roster_a = room.collect_players();
        let is_owner = true;
        let cp = crate::room::PlayerInfo {
            player_id: player_id.clone(),
            player_name: room.players[0].name.clone(),
            is_owner,
            is_ready: true,
            side: Some('W'),
        };
        proof {
            assert(cp == room.spec_info_of(room.players@[0]));
        }
        let ack = Event::RoomJoined {
            room_id: room.id.clone(),
            room_name: room.name.clone(),
            players: roster_a,
            current_player: Some(cp),
        };
        let roster_b = room.collect_players();
        let bc = Event::RoomJoined {
            room_id: room.id.clone(),
            room_name: room.name.clone(),
            players: roster_b,
            current_player: None,
        };
        match self.lookup(&room_id) {
            Some(i) => {
                self.rooms[i] = room;
                proof {
                    assert forall|p: int, q: int|
                        0 <= p < q < self.rooms@.len() implies self.rooms@[p].id@
                        != self.rooms@[q].id@ by {
                        assert(old(self).rooms@[p].id@ != old(self).rooms@[q].id@);
                    }
                    assert(self.rooms@[i as int].id@ == room_id@);
                    assert(self.spec_has_room(room_id@));
                    let k = self.spec_room_index(room_id@);
                    assert(0 <= k < self.rooms@.len() && self.rooms@[k].id@ == room_id@);
                    if k < i as int {
                        assert(self.rooms@[k].id@ != self.rooms@[i as int].id@);
                    } else if k > i as int {
                        assert(self.rooms@[i as int].id@ != self.rooms@[k].id@);
                    }
                }
            },
            None => {
                self.rooms.push(room);
                proof {
                    let j = self.rooms@.len() - 1;
                    assert forall|p: int, q: int|
                        0 <= p < q < self.rooms@.len() implies self.rooms@[p].id@
                        != self.rooms@[q].id@ by {
                        if q < j {
                            assert(old(self).rooms@[p].id@ != old(self).rooms@[q].id@);
                        } else {
                            assert(old(self).rooms@[p].id@ != room_id@);
                        }
                    }
                    assert(self.rooms@[j].id@ == room_id@);
                    assert(self.spec_has_room(room_id@));
                    let k = self.spec_room_index(room_id@);
                    assert(0 <= k < self.rooms@.len() && self.rooms@[k].id@ == room_id@);
                    if k < j {
                        assert(self.rooms@[k].id@ != self.rooms@[j].id@);
                    }
                }
            },
        }
        (created, ack, bc)
    }

    /// Deletes a room: only its owner may.  Removes the entry and returns
    /// the deletion notice to broadcast to its members first.
    pub fn delete_room(&mut self, room_id: &String, player_id: &String, now: u128) -> (r: Result<
        Event,
        RoomError,
    >)
        requires
            old(self).wf(),
        ensures
            final(self).wf(),
            !old(self).spec_has_room(room_id@) ==> r == Result::<Event, RoomError>::Err(
                RoomError::RoomNotFound,
            ) && *final(self) == *old(self),
            old(self).spec_has_room(room_id@) && old(self).rooms@[old(self).spec_room_index(
                room_id@,
            )].owner@ != player_id@ ==> r == Result::<Event, RoomError>::Err(
                RoomError::NotRoomOwner,
            ) && *final(self) == *old(self),
            old(self).spec_has_room(room_id@) && old(self).rooms@[old(self).spec_room_index(
                room_id@,
            )].owner@ == player_id@ ==> {
                &&& (final(self).rooms@ =~= old(self).rooms@.remove(
                    old(self).spec_room_index(room_id@),
                ))
                &&& r matches Ok(ev) && is_deleted_ev(ev, room_id@, now)
            },
    {
        match self.lookup(room_id) {
            None => Err(RoomError::RoomNotFound),
            Some(i) => {
                if self.rooms[i].owner != *player_id {
                    return Err(RoomError::NotRoomOwner);
                }
                proof {
                    let a = self.rooms@;
                    let b = a.remove(i as int);
                    assert forall|p: int, q: int| 0 <= p < q < b.len() implies b[p].id@
                        != b[q].id@ by {
                        let p0 = if p < i as int {
                            p
                        } else {
                            p + 1
                        };
                        let q0 = if q < i as int {
                            q
                        } else {
                            q + 1
                        };
                        assert(b[p] == a[p0]);
                        assert(b[q] == a[q0]);
                    }
                    assert forall|p: int| 0 <= p < b.len() implies (#[trigger] b[p]).wf() by {
                        let p0 = if p < i as int {
                            p
                        } else {
                            p + 1
                        };
                        assert(b[p] == a[p0]);
                    }
                }
                self.rooms.remove(i);
                Ok(
                    Event::PlayerStatus {
                        room_id: room_id.clone(),
                        player_id: "system".to_owned(),
                        kind: crate::events::PlayerStatusKind::RoomDeleted,
                        last_seen: now,
                    },
                )
            },
        }
    }
}

/// `e` is the deletion notice for this room.
pub open spec fn is_deleted_ev(e: Event, room: Seq<char>, t: u128) -> bool {
    e matches Event::PlayerStatus { room_id, player_id, kind, last_seen } && room_id@ == room
        && player_id@ == "system"@ && kind == crate::events::PlayerStatusKind::RoomDeleted
        && last_seen == t
}

/// The listing projection of one room.
pub open spec fn spec_summary(room: Room) -> RoomSummary {
    RoomSummary {
        id: room.id,
        name: room.name,
        status: room.status,
        owner: room.owner,
        current_players: room.players@.len() as usize,
        max_players: room.max_players,
        has_password: room.password is Some,
        created_at: room.last_activity,
    }
}

/// Whether a room passes the listing filters.
pub open spec fn spec_matches_filters(room: Room, f: RoomFilters) -> bool {
    &&& match f.status {
        StatusFilter::Waiting => room.status == RoomStatus::Waiting,
        StatusFilter::Playing => room.status == RoomStatus::Playing,
        StatusFilter::All => true,
    }
    &&& match f.has_password {
        Some(b) => (room.password is Some) == b,
        None => true,
    }
    &&& match f.max_players {
        Some(m) => room.max_players == m,
        None => true,
    }
}

/// The summaries of the first `n` rooms that pass the filters, in
/// directory order.
pub open spec fn spec_room_list(rooms: Seq<Room>, f: RoomFilters, n: int) -> Seq<RoomSummary>
    decreases n,
{
    if n <= 0 {
        Seq::empty()
    } else {
        let rest = spec_room_list(rooms, f, n - 1);
        if spec_matches_filters(rooms[n - 1], f) {
            rest.push(spec_summary(rooms[n - 1]))
        } else {
            rest
        }
    }
}

impl RoomRegistry {
    /// Lists the rooms that pass the filters.  The result is a pure
    /// function of the directory and the filters: listing twice with no
    /// intervening mutation returns identical results.
    pub fn get_room_list(&self, filters: &RoomFilters) -> (r: Vec<RoomSummary>)
        ensures
            r@ == spec_room_list(self.rooms@, *filters, self.rooms@.len() as int),
    {
        let mut v: Vec<RoomSummary> = Vec::new();
        let mut i: usize = 0;
        while i < self.rooms.len()
            invariant
                i <= self.rooms@.len(),
                v@ == spec_room_list(self.rooms@, *filters, i as int),
            decreases self.rooms@.len() - i,
        {
            let room = &self.rooms[i];
            let status_match = match filters.status {
                StatusFilter::Waiting => room.status == RoomStatus::Waiting,
                StatusFilter::Playing => room.status == RoomStatus::Playing,
                StatusFilter::All => true,
            };
            let password_match = match filters.has_password {
                Some(b) => room.password.is_some() == b,
                None => true,
            };
            let max_players_match = match filters.max_players {
                Some(m) => room.max_players == m,
                None => true,
            };
            if status_match && password_match && max_players_match {
                let summary = RoomSummary {
                    id: room.id.clone(),
                    name: room.name.clone(),
                    status: room.status,
                    owner: room.owner.clone(),
                    current_players: room.players.len(),
                    max_players: room.max_players,
                    has_password: room.password.is_some(),
                    created_at: room.last_activity,
                };
                assert(summary == spec_summary(self.rooms@[i as int]));
                v.push(summary);
            }
            i += 1;
        }
        v
    }
}

/// Listing is repeatable: two listings of the same directory under the
/// same filters are equal, as each is the one summary sequence the
/// directory determines.
pub proof fn lemma_listing_repeatable(
    reg: RoomRegistry,
    f: RoomFilters,
    r1: Seq<RoomSummary>,
    r2: Seq<RoomSummary>,
)
    requires
        r1 == spec_room_list(reg.rooms@, f, reg.rooms@.len() as int),
        r2 == spec_room_list(reg.rooms@, f, reg.rooms@.len() as int),
    ensures
        r1 == r2,
{
}

} // verus!
