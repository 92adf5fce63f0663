//! One game room: membership, seats, readiness, lifecycle status and the
//! embedded game, all behind a single consistency boundary.  Every mutating
//! operation validates first, mutates the room as one unit, and returns the
//! events to broadcast, so a caller can never observe or publish a torn
//! state.

use vstd::prelude::*;
use vstd::string::StringExecFns;
use crate::game::GameState;
use crate::ext::spec_trim;
use crate::events::Event;
use crate::events::PlayerStatusKind;

verus! {

/// The decimal digit character for `d` (0 through 9).
pub open spec fn digit_char(d: int) -> char {
    if d == 0 {
        '0'
    } else if d == 1 {
        '1'
    } else if d == 2 {
        '2'
    } else if d == 3 {
        '3'
    } else if d == 4 {
        '4'
    } else if d == 5 {
        '5'
    } else if d == 6 {
        '6'
    } else if d == 7 {
        '7'
    } else if d == 8 {
        '8'
    } else {
        '9'
    }
}

/// The decimal rendering of `n`, most significant digit first.
pub open spec fn spec_decimal(n: nat) -> Seq<char>
    decreases n,
{
    if n < 10 {
        seq![digit_char(n as int)]
    } else {
        spec_decimal(n / 10).push(digit_char((n % 10) as int))
    }
}

fn digit_str(d: u16) -> (r: &'static str)
    requires
        d < 10,
    ensures
        r@ =~= seq![digit_char(d as int)],
{
    proof {
        reveal_strlit("0");
        reveal_strlit("1");
        reveal_strlit("2");
        reveal_strlit("3");
        reveal_strlit("4");
        reveal_strlit("5");
        reveal_strlit("6");
        reveal_strlit("7");
        reveal_strlit("8");
        reveal_strlit("9");
    }
    if d == 0 {
        "0"
    } else if d == 1 {
        "1"
    } else if d == 2 {
        "2"
    } else if d == 3 {
        "3"
    } else if d == 4 {
        "4"
    } else if d == 5 {
        "5"
    } else if d == 6 {
        "6"
    } else if d == 7 {
        "7"
    } else if d == 8 {
        "8"
    } else {
        "9"
    }
}

fn decimal_string(n: u16) -> (r: String)
    ensures
        r@ =~= spec_decimal(n as nat),
    decreases n,
{
    if n < 10 {
        digit_str(n).to_owned()
    } else {
        let mut prefix = decimal_string(n / 10);
        prefix.append(digit_str(n % 10));
        prefix
    }
}

#[derive(Clone, Copy, PartialEq, Eq, Structural, Debug)]
pub enum RoomStatus {
    Waiting,
    Playing,
    Finished,
}

/// Everything that can go wrong with a room command.
#[derive(Clone, Copy, PartialEq, Eq, Structural, Debug)]
pub enum RoomError {
    RoomNotFound,
    InvalidPassword,
    RoomFull,
    AlreadyJoined,
    NoAvailableSeats,
    NotRoomOwner,
    NeedTwoPlayers,
    PlayersNotReady,
    GameNotInProgress,
}

impl RoomError {
    /// The stable wire code of this error.
    pub open spec fn spec_code(self) -> Seq<char> {
        match self {
            RoomError::RoomNotFound => "ROOM_NOT_FOUND"@,
            RoomError::InvalidPassword => "INVALID_PASSWORD"@,
            RoomError::RoomFull => "ROOM_FULL"@,
            RoomError::AlreadyJoined => "ALREADY_JOINED"@,
            RoomError::NoAvailableSeats => "NO_AVAILABLE_SEATS"@,
            RoomError::NotRoomOwner => "NOT_ROOM_OWNER"@,
            RoomError::NeedTwoPlayers => "NEED_TWO_PLAYERS"@,
            RoomError::PlayersNotReady => "PLAYERS_NOT_READY"@,
            RoomError::GameNotInProgress => "GAME_NOT_IN_PROGRESS"@,
        }
    }

    pub fn code(&self) -> (r: &'static str)
        ensures
            r@ == self.spec_code(),
    {
        match self {
            RoomError::RoomNotFound => "ROOM_NOT_FOUND",
            RoomError::InvalidPassword => "INVALID_PASSWORD",
            RoomError::RoomFull => "ROOM_FULL",
            RoomError::AlreadyJoined => "ALREADY_JOINED",
            RoomError::NoAvailableSeats => "NO_AVAILABLE_SEATS",
            RoomError::NotRoomOwner => "NOT_ROOM_OWNER",
            RoomError::NeedTwoPlayers => "NEED_TWO_PLAYERS",
            RoomError::PlayersNotReady => "PLAYERS_NOT_READY",
            RoomError::GameNotInProgress => "GAME_NOT_IN_PROGRESS",
        }
    }
}

/// A member of a room.
#[derive(Debug)]
pub struct Player {
    pub id: String,
    pub name: String,
    pub ready: bool,
}

/// One member as projected into a roster broadcast.
#[derive(Debug)]
pub struct PlayerInfo {
    pub player_id: String,
    pub player_name: String,
    pub is_owner: bool,
    pub is_ready: bool,
    pub side: Option<char>,
}

pub struct Room {
    pub id: String,
    pub name: String,
    pub status: RoomStatus,
    pub owner: String,
    pub password: Option<String>,
    pub max_players: usize,
    pub players: Vec<Player>,
    pub seat_w: Option<String>,
    pub seat_b: Option<String>,
    pub game: GameState,
    pub game_id: String,
    pub last_activity: u128,
}

/// The candidate display name `base#n`.
pub open spec fn spec_suffixed(base: Seq<char>, n: nat) -> Seq<char> {
    base + seq!['#'] + spec_decimal(n)
}

fn make_suffixed(base: &String, n: u16) -> (r: String)
    ensures
        r@ =~= spec_suffixed(base@, n as nat),
{
    proof {
        reveal_strlit("#");
    }
    let mut s = base.clone();
    s.append("#");
    let d = decimal_string(n);
    s.append(d.as_str());
    s
}

/// `e` is the given player-status notification.
pub open spec fn is_player_status_ev(
    e: Event,
    room: Seq<char>,
    pid: Seq<char>,
    k: PlayerStatusKind,
    t: u128,
) -> bool {
    e matches Event::PlayerStatus { room_id, player_id, kind, last_seen } && room_id@ == room
        && player_id@ == pid && kind == k && last_seen == t
}

/// `e` is the roster update that `room` broadcasts to everyone.
pub open spec fn is_roster_broadcast_ev(e: Event, room: Room) -> bool {
    e matches Event::RoomJoined { room_id, room_name, players, current_player } && room_id@
        == room.id@ && room_name@ == room.name@ && players@ =~= room.spec_roster()
        && current_player is None
}

/// The view of an optional borrowed string.
pub open spec fn spec_opt_view(o: Option<&String>) -> Option<Seq<char>> {
    match o {
        Some(s) => Some(s@),
        None => None,
    }
}

/// Some player in the roster carries this id.
pub open spec fn spec_has_player(players: Seq<Player>, id: Seq<char>) -> bool {
    exists|i: int| 0 <= i < players.len() && #[trigger] players[i].id@ == id
}

/// Some player in the roster carries this display name.
pub open spec fn spec_name_taken(players: Seq<Player>, name: Seq<char>) -> bool {
    exists|i: int| 0 <= i < players.len() && #[trigger] players[i].name@ == name
}

/// Every member id occurs once.
pub open spec fn spec_unique_ids(players: Seq<Player>) -> bool {
    forall|i: int, j: int| 0 <= i < j < players.len() ==> players[i].id@ != players[j].id@
}

/// Uniqueness of ids survives removing a member.
proof fn lemma_remove_unique(a: Seq<Player>, i: int)
    requires
        0 <= i < a.len(),
        spec_unique_ids(a),
    ensures
        spec_unique_ids(a.remove(i)),
{
    let b = a.remove(i);
    assert forall|p: int, q: int| 0 <= p < q < b.len() implies b[p].id@ != b[q].id@ by {
        let p0 = if p < i {
            p
        } else {
            p + 1
        };
        let q0 = if q < i {
            q
        } else {
            q + 1
        };
        assert(b[p] == a[p0]);
        assert(b[q] == a[q0]);
    }
}

/// Membership of any other id survives removing a member.
proof fn lemma_remove_has_player(a: Seq<Player>, i: int, id: Seq<char>)
    requires
        0 <= i < a.len(),
        spec_has_player(a, id),
        a[i].id@ != id,
    ensures
        spec_has_player(a.remove(i), id),
{
    let j = choose|j: int| 0 <= j < a.len() && #[trigger] a[j].id@ == id;
    if j < i {
        assert(a.remove(i)[j].id@ == id);
    } else {
        assert(a.remove(i)[j - 1].id@ == id);
    }
}

/// Membership by id survives appending another player.
proof fn lemma_push_has_player(a: Seq<Player>, p: Player, id: Seq<char>)
    requires
        spec_has_player(a, id),
    ensures
        spec_has_player(a.push(p), id),
{
    let i = choose|i: int| 0 <= i < a.len() && #[trigger] a[i].id@ == id;
    assert(a.push(p)[i].id@ == id);
}

/// Membership by id carries over to any roster with the same ids.
proof fn lemma_same_ids_has_player(a: Seq<Player>, b: Seq<Player>, id: Seq<char>)
    requires
        a.len() == b.len(),
        forall|k: int| 0 <= k < a.len() ==> (#[trigger] a[k]).id@ == b[k].id@,
        spec_has_player(a, id),
    ensures
        spec_has_player(b, id),
{
    let i = choose|i: int| 0 <= i < a.len() && #[trigger] a[i].id@ == id;
    assert(a[i].id@ == id);
    assert(b[i].id@ == id);
}

fn name_taken(players: &Vec<Player>, name: &String) -> (r: bool)
    ensures
        r == spec_name_taken(players@, name@),
{
    let mut i: usize = 0;
    while i < players.len()
        invariant
            i <= players@.len(),
            forall|k: int| 0 <= k < i ==> #[trigger] players@[k].name@ != name@,
        decreases players@.len() - i,
    {
        if players[i].name == *name {
            assert(players@[i as int].name@ == name@);
            return true;
        }
        i += 1;
    }
    false
}

/// What a correctly chosen display name looks like: the trimmed requested
/// name as given when free ("Player" when the trimmed request is empty),
/// otherwise the first free of `name#1` through `name#999`, otherwise the
/// name followed by `#` and a random eight-character suffix.
pub open spec fn spec_name_choice_ok(
    players: Seq<Player>,
    requested_name: Seq<char>,
    chosen: Seq<char>,
) -> bool {
    let base = spec_trim(requested_name);
    &&& (base.len() == 0 ==> chosen == "Player"@)
    &&& (base.len() > 0 && !spec_name_taken(players, base) ==> chosen == base)
    &&& (base.len() > 0 && spec_name_taken(players, base) ==> {
        ||| (exists|k: nat|
            1 <= k <= 999 && chosen == spec_suffixed(base, k) && !spec_name_taken(
                players,
                spec_suffixed(base, k),
            ) && (forall|j: nat|
                1 <= j < k ==> spec_name_taken(players, spec_suffixed(base, j))))
        ||| ((forall|j: nat|
            1 <= j <= 999 ==> spec_name_taken(players, spec_suffixed(base, j))) && chosen.len()
            == base.len() + 9 && chosen.subrange(0, base.len() as int + 1) == base + seq!['#'])
    })
}

/// Picks a display name for a joining player: the trimmed requested name
/// as given when free ("Player" when it trims to nothing), otherwise the
/// first free of `name#1` through `name#999`, otherwise the name with a
/// random eight-character suffix.
pub fn generate_unique_display_name(players: &Vec<Player>, requested_name: &String) -> (r: String)
    ensures
        spec_name_choice_ok(players@, requested_name@, r@),
{
    let base = crate::ext::trim_str(requested_name);
    if base.as_str().is_empty() {
        return "Player".to_owned();
    }
    if !name_taken(players, &base) {
        return base;
    }
    let mut counter: u16 = 1;
    while counter <= 999
        invariant
            1 <= counter <= 1000,
            base@ == spec_trim(requested_name@),
            base@.len() > 0,
            spec_name_taken(players@, base@),
            forall|j: nat| 1 <= j < counter ==> spec_name_taken(players@, spec_suffixed(base@, j)),
        decreases 1000 - counter,
    {
        let candidate = make_suffixed(&base, counter);
        if !name_taken(players, &candidate) {
            return candidate;
        }
        counter += 1;
    }
    proof {
        reveal_strlit("#");
    }
    let mut fallback = base;
    fallback.append("#");
    let sid = crate::ext::fresh_short_id();
    fallback.append(sid.as_str());
    assert(fallback@.subrange(0, spec_trim(requested_name@).len() as int + 1) =~= spec_trim(
        requested_name@,
    ) + seq!['#']);
    fallback
}

/// `e` is the roster acknowledgment sent to the newest member alone.
pub open spec fn is_join_ack_ev(e: Event, room: Room) -> bool {
    e matches Event::RoomJoined { room_id, room_name, players, current_player } && room_id@
        == room.id@ && room_name@ == room.name@ && players@ =~= room.spec_roster()
        && current_player == Some(room.spec_info_of(room.players@.last()))
}

/// How recording one member's readiness changes a room: that member's
/// flag is set, everything else stays, and the activity stamp moves.
pub open spec fn spec_ready_post(
    pre: Room,
    post: Room,
    pid: Seq<char>,
    is_ready: bool,
    now: u128,
) -> bool {
    &&& post == (Room { players: post.players, last_activity: now, ..pre })
    &&& post.players@.len() == pre.players@.len()
    &&& (forall|i: int|
        0 <= i < pre.players@.len() ==> #[trigger] post.players@[i] == (if pre.players@[i].id@
            == pid {
            Player { ready: is_ready, ..pre.players@[i] }
        } else {
            pre.players@[i]
        }))
}

/// How admitting a player changes a room: the joiner is appended with
/// readiness false and a display name chosen against the old roster, and
/// takes the first open seat, W before B.
pub open spec fn spec_joined_post(
    pre: Room,
    post: Room,
    player_name: Seq<char>,
    pid: Seq<char>,
    now: u128,
) -> bool {
    let joiner = post.players@.last();
    &&& post.players@ =~= pre.players@.push(joiner)
    &&& joiner.id@ == pid
    &&& joiner.ready == false
    &&& spec_name_choice_ok(pre.players@, player_name, joiner.name@)
    &&& (if pre.seat_w is None {
        (post.seat_w matches Some(s) && s@ == pid) && post.seat_b == pre.seat_b
    } else {
        post.seat_w == pre.seat_w && (post.seat_b matches Some(s) && s@ == pid)
    })
    &&& post == (Room {
        players: post.players,
        seat_w: post.seat_w,
        seat_b: post.seat_b,
        last_activity: now,
        ..pre
    })
}

/// How a departure changes a room: the member, their seat and their
/// readiness go; ownership passes to the first remaining player if the
/// owner left; a running game is cancelled (back to Waiting, fresh game,
/// readiness reset).  The rotated game identifier is left open here.
pub open spec fn spec_leave_post(pre: Room, post: Room, pid: Seq<char>, now: u128) -> bool {
    let removed = pre.spec_roster_after_remove(pid);
    let transferred = pre.owner@ == pid && removed.len() > 0;
    let cancelled = pre.status == RoomStatus::Playing;
    &&& post.players@.len() == removed.len()
    &&& (forall|i: int|
        0 <= i < removed.len() ==> #[trigger] post.players@[i] == (Player {
            ready: if cancelled {
                false
            } else {
                removed[i].ready
            },
            ..removed[i]
        }))
    &&& post.owner@ == (if transferred {
        removed[0].id@
    } else {
        pre.owner@
    })
    &&& post.seat_w == (if pre.seat_w is Some && pre.seat_w->0@ == pid {
        None::<String>
    } else {
        pre.seat_w
    })
    &&& post.seat_b == (if pre.seat_b is Some && pre.seat_b->0@ == pid {
        None::<String>
    } else {
        pre.seat_b
    })
    &&& post.status == (if cancelled {
        RoomStatus::Waiting
    } else {
        pre.status
    })
    &&& (cancelled ==> post.game.is_initial())
    &&& (!cancelled ==> post.game == pre.game)
    &&& post.last_activity == now
    &&& post.id == pre.id
    &&& post.name == pre.name
    &&& post.password == pre.password
    &&& post.max_players == pre.max_players
}

/// The events a departure broadcasts, in order: the ownership transfer
/// and the cancellation where they happened, the departure notice, the
/// roster update.
pub open spec fn spec_leave_events(
    pre: Room,
    post: Room,
    evs: Seq<Event>,
    pid: Seq<char>,
    now: u128,
) -> bool {
    let removed = pre.spec_roster_after_remove(pid);
    let transferred = pre.owner@ == pid && removed.len() > 0;
    let cancelled = pre.status == RoomStatus::Playing;
    &&& evs.len() == (if transferred {
        1int
    } else {
        0int
    }) + (if cancelled {
        1int
    } else {
        0int
    }) + 2
    &&& (transferred ==> is_player_status_ev(
        evs[0],
        pre.id@,
        removed[0].id@,
        PlayerStatusKind::NewOwner,
        now,
    ))
    &&& (cancelled ==> is_player_status_ev(
        evs[if transferred {
            1int
        } else {
            0int
        }],
        pre.id@,
        "system"@,
        PlayerStatusKind::GameCancelled,
        now,
    ))
    &&& is_player_status_ev(evs[evs.len() - 2], pre.id@, pid, PlayerStatusKind::LeftRoom, now)
    &&& is_roster_broadcast_ev(evs[evs.len() - 1], post)
}

impl Room {
    pub open spec fn spec_has_player(self, id: Seq<char>) -> bool {
        spec_has_player(self.players@, id)
    }

    /// The room's single consistency invariant: member ids are unique, both
    /// seats are held by members and by different members, and the embedded
    /// game is well-formed.
    pub open spec fn wf(self) -> bool {
        &&& spec_unique_ids(self.players@)
        &&& match self.seat_w {
            Some(id) => self.spec_has_player(id@),
            None => true,
        }
        &&& match self.seat_b {
            Some(id) => self.spec_has_player(id@),
            None => true,
        }
        &&& (self.seat_w is Some && self.seat_b is Some ==> self.seat_w->0@ != self.seat_b->0@)
        &&& self.game.wf()
    }

    /// The seat of a member, if any.
    pub open spec fn spec_side_of(self, id: Seq<char>) -> Option<char> {
        if self.seat_w is Some && self.seat_w->0@ == id {
            Some('W')
        } else if self.seat_b is Some && self.seat_b->0@ == id {
            Some('B')
        } else {
            None
        }
    }

    /// One member's roster projection.
    pub open spec fn spec_info_of(self, p: Player) -> PlayerInfo {
        PlayerInfo {
            player_id: p.id,
            player_name: p.name,
            is_owner: p.id@ == self.owner@,
            is_ready: p.ready,
            side: self.spec_side_of(p.id@),
        }
    }

    /// The full roster projection, in join order.
    pub open spec fn spec_roster(self) -> Seq<PlayerInfo> {
        Seq::new(self.players@.len(), |i: int| self.spec_info_of(self.players@[i]))
    }

    /// Builds the roster broadcast for the current membership.
    pub fn collect_players(&self) -> (r: Vec<PlayerInfo>)
        ensures
            r@ =~= self.spec_roster(),
    {
        let mut v: Vec<PlayerInfo> = Vec::new();
        let mut i: usize = 0;
        while i < self.players.len()
            invariant
                i <= self.players@.len(),
                v@ =~= self.spec_roster().take(i as int),
            decreases self.players@.len() - i,
        {
            let p = &self.players[i];
            let is_owner = p.id == self.owner;
            let side: Option<char> = match &self.seat_w {
                Some(wid) => {
                    if *wid == p.id {
                        Some('W')
                    } else {
                        match &self.seat_b {
                            Some(bid) => {
                                if *bid == p.id {
                                    Some('B')
                                } else {
                                    None
                                }
                            },
                            None => None,
                        }
                    }
                },
                None => {
                    match &self.seat_b {
                        Some(bid) => {
                            if *bid == p.id {
                                Some('B')
                            } else {
                                None
                            }
                        },
                        None => None,
                    }
                },
            };
            let info = PlayerInfo {
                player_id: p.id.clone(),
                player_name: p.name.clone(),
                is_owner,
                is_ready: p.ready,
                side,
            };
            assert(info == self.spec_info_of(self.players@[i as int]));
            v.push(info);
            i += 1;
        }
        v
    }

    /// All members are ready (and there are exactly two of them).
    pub open spec fn spec_all_ready(self) -> bool {
        self.players@.len() == 2 && forall|i: int|
            0 <= i < self.players@.len() ==> (#[trigger] self.players@[i]).ready
    }

    fn all_members_ready(&self) -> (r: bool)
        ensures
            r == forall|i: int| 0 <= i < self.players@.len() ==> (#[trigger] self.players@[i]).ready,
    {
        let mut i: usize = 0;
        while i < self.players.len()
            invariant
                i <= self.players@.len(),
                forall|k: int| 0 <= k < i ==> (#[trigger] self.players@[k]).ready,
            decreases self.players@.len() - i,
        {
            if !self.players[i].ready {
                return false;
            }
            i += 1;
        }
        true
    }

    /// Records a member's readiness and reports it to the room, together
    /// with whether the room as a whole is now ready to start.  A readiness
    /// report for an id that is not a member changes nothing but is still
    /// announced, as the membership check belongs to the join path.
    pub fn set_ready(&mut self, player_id: &String, is_ready: bool, now: u128) -> (r: (bool, Event))
        requires
            old(self).wf(),
        ensures
            final(self).wf(),
            spec_ready_post(*old(self), *final(self), player_id@, is_ready, now),
            r.0 == final(self).spec_all_ready(),
            r.1 == (Event::PlayerReady {
                room_id: old(self).id,
                player_id: *player_id,
                is_ready,
                all_ready: r.0,
            }),
    {
        let mut i: usize = 0;
        while i < self.players.len()
            invariant
                i <= self.players@.len(),
                self.players@.len() == old(self).players@.len(),
                *self == (Room { players: self.players, ..*old(self) }),
                forall|k: int|
                    0 <= k < self.players@.len() ==> #[trigger] self.players@[k] == (
                    if k < i && old(self).players@[k].id@ == player_id@ {
                        Player { ready: is_ready, ..old(self).players@[k] }
                    } else {
                        old(self).players@[k]
                    }),
            decreases self.players@.len() - i,
        {
            if self.players[i].id == *player_id {
                let name = self.players[i].name.clone();
                let id = self.players[i].id.clone();
                self.players[i] = Player { id, name, ready: is_ready };
            }
            i += 1;
        }
        let all_ready = self.players.len() == 2 && self.all_members_ready();
        self.last_activity = now;
        proof {
            assert(forall|k: int|
                0 <= k < old(self).players@.len() ==> (#[trigger] old(self).players@[k]).id@
                    == self.players@[k].id@);
            if old(self).seat_w is Some {
                lemma_same_ids_has_player(
                    old(self).players@,
                    self.players@,
                    old(self).seat_w->0@,
                );
            }
            if old(self).seat_b is Some {
                lemma_same_ids_has_player(
                    old(self).players@,
                    self.players@,
                    old(self).seat_b->0@,
                );
            }
            assert(self.wf());
        }
        let ev = Event::PlayerReady {
            room_id: self.id.clone(),
            player_id: player_id.clone(),
            is_ready,
            all_ready,
        };
        (all_ready, ev)
    }

    pub fn find_player(&self, id: &String) -> (r: Option<usize>)
        requires
            self.wf(),
        ensures
            r is Some <==> self.spec_has_player(id@),
            r matches Some(i) ==> i < self.players@.len() && self.players@[i as int].id@ == id@
                && i as int == self.spec_player_index(id@),
    {
        let mut i: usize = 0;
        while i < self.players.len()
            invariant
                self.wf(),
                i <= self.players@.len(),
                forall|k: int| 0 <= k < i ==> #[trigger] self.players@[k].id@ != id@,
            decreases self.players@.len() - i,
        {
            if self.players[i].id == *id {
                proof {
                    assert(self.players@[i as int].id@ == id@);
                    assert(self.spec_has_player(id@));
                    let k = self.spec_player_index(id@);
                    assert(0 <= k < self.players@.len() && self.players@[k].id@ == id@);
                    if k < i as int {
                        assert(self.players@[k].id@ != self.players@[i as int].id@);
                    } else if k > i as int {
                        assert(self.players@[i as int].id@ != self.players@[k].id@);
                    }
                }
                return Some(i);
            }
            i += 1;
        }
        None
    }

    /// The room accepts this password: rooms without one accept anything.
    pub open spec fn spec_password_ok(self, given: Option<Seq<char>>) -> bool {
        match self.password {
            Some(p) => given == Some(p@),
            None => true,
        }
    }

    /// Why a join request would be refused, in the order the checks run.
    pub open spec fn spec_join_err(self, given: Option<Seq<char>>, id: Seq<char>) -> Option<
        RoomError,
    > {
        if !self.spec_password_ok(given) {
            Some(RoomError::InvalidPassword)
        } else if self.players@.len() >= self.max_players {
            Some(RoomError::RoomFull)
        } else if self.spec_has_player(id) {
            Some(RoomError::AlreadyJoined)
        } else if self.seat_w is Some && self.seat_b is Some {
            Some(RoomError::NoAvailableSeats)
        } else {
            None
        }
    }

    /// Admits a player: the password must match, the room must have space,
    /// the id must be new and a seat must be open.  The joiner takes the
    /// first open seat (W before B) with readiness false, under a display
    /// name made unique against the current roster.  Returns the joiner's
    /// individual acknowledgment and the broadcast for everyone, in that
    /// order; any failure leaves the room untouched.
    pub fn join_room(
        &mut self,
        password: Option<&String>,
        player_name: &String,
        player_id: &String,
        now: u128,
    ) -> (r: Result<(Event, Event), RoomError>)
        requires
            old(self).wf(),
        ensures
            final(self).wf(),
            r is Ok <==> old(self).spec_join_err(spec_opt_view(password), player_id@) is None,
            r matches Err(e) ==> *final(self) == *old(self) && Some(e) == old(self).spec_join_err(
                spec_opt_view(password),
                player_id@,
            ),
            r matches Ok(evs) ==> {
                &&& spec_joined_post(*old(self), *final(self), player_name@, player_id@, now)
                &&& is_join_ack_ev(evs.0, *final(self))
                &&& is_roster_broadcast_ev(evs.1, *final(self))
            },
    {
        let pw_ok = match (&self.password, password) {
            (Some(p), Some(g)) => *p == *g,
            (Some(_), None) => false,
            (None, _) => true,
        };
        if !pw_ok {
            return Err(RoomError::InvalidPassword);
        }
        if self.players.len() >= self.max_players {
            return Err(RoomError::RoomFull);
        }
        if self.find_player(player_id).is_some() {
            return Err(RoomError::AlreadyJoined);
        }
        if self.seat_w.is_some() && self.seat_b.is_some() {
            return Err(RoomError::NoAvailableSeats);
        }
        let name = generate_unique_display_name(&self.players, player_name);
        let joiner = Player { id: player_id.clone(), name: name.clone(), ready: false };
        let ghost old_players = self.players@;
        self.players.push(joiner);
        let assigned_w = self.seat_w.is_none();
        if assigned_w {
            self.seat_w = Some(player_id.clone());
        } else {
            self.seat_b = Some(player_id.clone());
        }
        self.last_activity = now;
        proof {
            assert(self.players@.last().id@ == player_id@);
            assert(spec_has_player(self.players@, player_id@));
            if old(self).seat_w is Some {
                lemma_push_has_player(
                    old_players,
                    self.players@.last(),
                    old(self).seat_w->0@,
                );
            }
            if old(self).seat_b is Some {
                lemma_push_has_player(
                    old_players,
                    self.players@.last(),
                    old(self).seat_b->0@,
                );
            }
            assert(self.wf());
        }
        let side = if assigned_w {
            Some('W')
        } else {
            Some('B')
        };
        let is_owner = *player_id == self.owner;
        let cp = PlayerInfo {
            player_id: player_id.clone(),
            player_name: name,
            is_owner,
            is_ready: false,
            side,
        };
        proof {
            assert(cp == self.spec_info_of(self.players@.last()));
        }
        let roster_a = self.collect_players();
        let ack = Event::RoomJoined {
            room_id: self.id.clone(),
            room_name: self.name.clone(),
            players: roster_a,
            current_player: Some(cp),
        };
        let roster_b = self.collect_players();
        let bc = Event::RoomJoined {
            room_id: self.id.clone(),
            room_name: self.name.clone(),
            players: roster_b,
            current_player: None,
        };
        Ok((ack, bc))
    }

    /// The index of the member with this id (meaningful only when present;
    /// unique under `wf`).
    pub open spec fn spec_player_index(self, id: Seq<char>) -> int {
        choose|i: int| 0 <= i < self.players@.len() && #[trigger] self.players@[i].id@ == id
    }

    /// The roster after removing the member with this id, if present.
    pub open spec fn spec_roster_after_remove(self, id: Seq<char>) -> Seq<Player> {
        if self.spec_has_player(id) {
            self.players@.remove(self.spec_player_index(id))
        } else {
            self.players@
        }
    }

    /// Removes a member: clears the membership and seat, transfers
    /// ownership to the first remaining player if the owner left, cancels a
    /// running game (back to Waiting, fresh game, readiness reset), and
    /// returns whether the room is now empty together with the events to
    /// broadcast: the ownership transfer and the cancellation where they
    /// happened, then the departure notice and the roster update.
    pub fn leave_room(&mut self, player_id: &String, new_game_id: String, now: u128) -> (r: (
        bool,
        Vec<Event>,
    ))
        requires
            old(self).wf(),
        ensures
            final(self).wf(),
            spec_leave_post(*old(self), *final(self), player_id@, now),
            old(self).status == RoomStatus::Playing ==> final(self).game_id == new_game_id,
            old(self).status != RoomStatus::Playing ==> final(self).game_id == old(self).game_id,
            r.0 == (old(self).spec_roster_after_remove(player_id@).len() == 0),
            spec_leave_events(*old(self), *final(self), r.1@, player_id@, now),
    {
        let mut events: Vec<Event> = Vec::new();
        match self.find_player(player_id) {
            Some(i) => {
                proof {
                    lemma_remove_unique(self.players@, i as int);
                    if self.seat_w is Some && self.seat_w->0@ != player_id@ {
                        lemma_remove_has_player(self.players@, i as int, self.seat_w->0@);
                    }
                    if self.seat_b is Some && self.seat_b->0@ != player_id@ {
                        lemma_remove_has_player(self.players@, i as int, self.seat_b->0@);
                    }
                }
                self.players.remove(i);
            },
            None => {},
        }
        assert(self.players@ =~= old(self).spec_roster_after_remove(player_id@));
        let clear_w = match &self.seat_w {
            Some(s) => *s == *player_id,
            None => false,
        };
        if clear_w {
            self.seat_w = None;
        }
        let clear_b = match &self.seat_b {
            Some(s) => *s == *player_id,
            None => false,
        };
        if clear_b {
            self.seat_b = None;
        }
        if self.owner == *player_id && self.players.len() > 0 {
            let new_owner = self.players[0].id.clone();
            self.owner = new_owner.clone();
            events.push(
                Event::PlayerStatus {
                    room_id: self.id.clone(),
                    player_id: new_owner,
                    kind: PlayerStatusKind::NewOwner,
                    last_seen: now,
                },
            );
        }
        if self.status == RoomStatus::Playing {
            self.status = RoomStatus::Waiting;
            self.game = GameState::new();
            self.game_id = new_game_id;
            let ghost pre_reset = *self;
            let ghost before_reset = self.players@;
            let mut i: usize = 0;
            while i < self.players.len()
                invariant
                    i <= self.players@.len(),
                    self.players@.len() == before_reset.len(),
                    *self == (Room { players: self.players, ..pre_reset }),
                    forall|k: int|
                        0 <= k < self.players@.len() ==> #[trigger] self.players@[k] == (
                        if k < i {
                            Player { ready: false, ..before_reset[k] }
                        } else {
                            before_reset[k]
                        }),
                decreases self.players@.len() - i,
            {
                let id = self.players[i].id.clone();
                let name = self.players[i].name.clone();
                self.players[i] = Player { id, name, ready: false };
                i += 1;
            }
            proof {
                assert(forall|k: int|
                    0 <= k < before_reset.len() ==> (#[trigger] before_reset[k]).id@
                        == self.players@[k].id@);
                assert(spec_unique_ids(self.players@)) by {
                    assert forall|p: int, q: int|
                        0 <= p < q < self.players@.len() implies self.players@[p].id@
                        != self.players@[q].id@ by {
                        assert(before_reset[p].id@ != before_reset[q].id@);
                    }
                }
                if self.seat_w is Some {
                    lemma_same_ids_has_player(before_reset, self.players@, self.seat_w->0@);
                }
                if self.seat_b is Some {
                    lemma_same_ids_has_player(before_reset, self.players@, self.seat_b->0@);
                }
            }
            events.push(
                Event::PlayerStatus {
                    room_id: self.id.clone(),
                    player_id: "system".to_owned(),
                    kind: PlayerStatusKind::GameCancelled,
                    last_seen: now,
                },
            );
        }
        self.last_activity = now;
        events.push(
            Event::PlayerStatus {
                room_id: self.id.clone(),
                player_id: player_id.clone(),
                kind: PlayerStatusKind::LeftRoom,
                last_seen: now,
            },
        );
        let roster = self.collect_players();
        events.push(
            Event::RoomJoined {
                room_id: self.id.clone(),
                room_name: self.name.clone(),
                players: roster,
                current_player: None,
            },
        );
        let empty = self.players.len() == 0;
        (empty, events)
    }

    /// Every member has declared readiness.
    pub open spec fn spec_members_ready(self) -> bool {
        forall|i: int| 0 <= i < self.players@.len() ==> (#[trigger] self.players@[i]).ready
    }

    /// Why a start request would be refused, in the order the checks run.
    pub open spec fn spec_start_err(self, requester: Seq<char>) -> Option<RoomError> {
        if self.owner@ != requester {
            Some(RoomError::NotRoomOwner)
        } else if !(self.seat_w is Some && self.seat_b is Some) {
            Some(RoomError::NeedTwoPlayers)
        } else if !self.spec_members_ready() {
            Some(RoomError::PlayersNotReady)
        } else {
            None
        }
    }

    /// Starts the game: only the owner may, both seats must be filled and
    /// every member ready.  Reinitialises the game, rotates the game id,
    /// moves the room to Playing and returns the full-snapshot broadcast.
    pub fn start_game(&mut self, requester_id: &String, new_game_id: String, now: u128) -> (r:
        Result<Event, RoomError>)
        requires
            old(self).wf(),
        ensures
            final(self).wf(),
            r is Ok <==> old(self).spec_start_err(requester_id@) is None,
            r matches Err(e) ==> *final(self) == *old(self) && old(self).spec_start_err(
                requester_id@,
            ) == Some(e),
            r matches Ok(ev) ==> {
                &&& *final(self) == (Room {
                    status: RoomStatus::Playing,
                    game: final(self).game,
                    game_id: new_game_id,
                    last_activity: now,
                    ..*old(self)
                })
                &&& final(self).game.is_initial()
                &&& (ev matches Event::GameStarted {
                    room_id,
                    game_id,
                    players,
                    initial_turn,
                    game_state,
                } && room_id@ == old(self).id@ && game_id@ == new_game_id@ && (players@ =~= final(self).spec_roster()) && initial_turn == 'W' && (game_state.w@ =~= final(self).game.w@)
                    && (game_state.b@ =~= final(self).game.b@) && game_state.turn == 'W'
                    && game_state.roll is None && game_state.game_over == false)
            },
    {
        if self.owner != *requester_id {
            return Err(RoomError::NotRoomOwner);
        }
        if !(self.seat_w.is_some() && self.seat_b.is_some()) {
            return Err(RoomError::NeedTwoPlayers);
        }
        if !self.all_members_ready() {
            return Err(RoomError::PlayersNotReady);
        }
        self.status = RoomStatus::Playing;
        self.game = GameState::new();
        self.game_id = new_game_id;
        self.last_activity = now;
        let players = self.collect_players();
        let gs = self.game.snapshot();
        let ev = Event::GameStarted {
            room_id: self.id.clone(),
            game_id: self.game_id.clone(),
            players,
            initial_turn: 'W',
            game_state: gs,
        };
        Ok(ev)
    }

    /// Why a reset request would be refused.
    pub open spec fn spec_reset_err(self, requester: Seq<char>) -> Option<RoomError> {
        if self.owner@ != requester {
            Some(RoomError::NotRoomOwner)
        } else if self.status != RoomStatus::Playing && self.status != RoomStatus::Finished {
            Some(RoomError::GameNotInProgress)
        } else {
            None
        }
    }

    /// Resets a running or finished game: only the owner may.  Rotates the
    /// game id, reinitialises the game, moves the room back to Playing and
    /// returns the reset announcement followed by the fresh-start broadcast.
    pub fn reset_game(&mut self, requester_id: &String, new_game_id: String, now: u128) -> (r:
        Result<(Event, Event), RoomError>)
        requires
            old(self).wf(),
        ensures
            final(self).wf(),
            r is Ok <==> old(self).spec_reset_err(requester_id@) is None,
            r matches Err(e) ==> *final(self) == *old(self) && old(self).spec_reset_err(
                requester_id@,
            ) == Some(e),
            r matches Ok(evs) ==> {
                &&& *final(self) == (Room {
                    status: RoomStatus::Playing,
                    game: final(self).game,
                    game_id: new_game_id,
                    last_activity: now,
                    ..*old(self)
                })
                &&& final(self).game.is_initial()
                &&& evs.0 == (Event::GameReset {
                    room_id: old(self).id,
                    game_id: old(self).game_id,
                    reset_by: *requester_id,
                    new_game_id,
                })
                &&& (evs.1 matches Event::GameStarted {
                    room_id,
                    game_id,
                    players,
                    initial_turn,
                    game_state,
                } && room_id@ == old(self).id@ && game_id@ == new_game_id@ && (players@ =~= final(self).spec_roster()) && initial_turn == 'W' && (game_state.w@ =~= final(self).game.w@)
                    && (game_state.b@ =~= final(self).game.b@) && game_state.turn == 'W'
                    && game_state.roll is None && game_state.game_over == false)
            },
    {
        if self.owner != *requester_id {
            return Err(RoomError::NotRoomOwner);
        }
        if self.status != RoomStatus::Playing && self.status != RoomStatus::Finished {
            return Err(RoomError::GameNotInProgress);
        }
        let old_game_id = self.game_id.clone();
        self.game = GameState::new();
        self.game_id = new_game_id;
        self.status = RoomStatus::Playing;
        self.last_activity = now;
        let reset_ev = Event::GameReset {
            room_id: self.id.clone(),
            game_id: old_game_id,
            reset_by: requester_id.clone(),
            new_game_id: self.game_id.clone(),
        };
        let players = self.collect_players();
        let gs = self.game.snapshot();
        let started_ev = Event::GameStarted {
            room_id: self.id.clone(),
            game_id: self.game_id.clone(),
            players,
            initial_turn: 'W',
            game_state: gs,
        };
        Ok((reset_ev, started_ev))
    }
}

} // verus!
