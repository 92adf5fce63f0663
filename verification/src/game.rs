//! The Senet rule engine: a board of 30 squares, two sides of five pieces,
//! legal-move computation, move validation and application, win detection.
//! Pure logic over plain values; no knowledge of rooms or the wire.
//!
//! A piece position is `1..=30` while on the board, `OFF_BOARD` (0) when off
//! the board, and `EXITED` (31) once it has left past the exit square.  The
//! two sentinels are deliberately distinct so that occupancy checks (which
//! treat only `1..=30` as occupying a square) can never confuse an exited
//! piece with an empty square.

use vstd::prelude::*;

verus! {

pub const BOARD_MAX: u8 = 30;
pub const WATER_SQUARE: u8 = 27;
pub const EXIT_SQUARE: u8 = 30;
pub const PIECES: usize = 5;
pub const OFF_BOARD: u8 = 0;
pub const EXITED: u8 = 31;
pub const SAFE_A: u8 = 15;
pub const SAFE_B: u8 = 26;

pub open spec fn valid_side(c: char) -> bool {
    c == 'W' || c == 'B'
}

pub open spec fn spec_opponent(c: char) -> char {
    if c == 'W' {
        'B'
    } else {
        'W'
    }
}

pub fn opponent(c: char) -> (r: char)
    ensures
        r == spec_opponent(c),
{
    if c == 'W' {
        'B'
    } else {
        'W'
    }
}

/// A square of the board proper.
pub open spec fn on_board(p: u8) -> bool {
    1 <= p && p <= BOARD_MAX
}

/// Any value a piece position may take.
pub open spec fn valid_pos(p: u8) -> bool {
    p == OFF_BOARD || p == EXITED || on_board(p)
}

pub open spec fn is_safe_square(sq: u8) -> bool {
    sq == SAFE_A || sq == SAFE_B
}

#[derive(Clone)]
pub struct GameState {
    pub turn: char,
    pub last_roll: Option<u8>,
    pub w: Vec<u8>,
    pub b: Vec<u8>,
    pub game_over: bool,
}

impl GameState {
    /// The five positions of one side.
    pub open spec fn side_seq(self, side: char) -> Seq<u8> {
        if side == 'W' {
            self.w@
        } else {
            self.b@
        }
    }

    /// `side` has a piece standing on board square `sq`.
    pub open spec fn occupies(self, side: char, sq: u8) -> bool {
        on_board(sq) && exists|i: int|
            0 <= i < self.side_seq(side).len() && self.side_seq(side)[i] == sq
    }

    /// Some piece of either side stands on board square `sq`.
    pub open spec fn sq_occupied(self, sq: u8) -> bool {
        self.occupies('W', sq) || self.occupies('B', sq)
    }

    /// The index of the piece of `side` standing on `sq` (meaningful only
    /// when `occupies(side, sq)`; unique under `wf`).
    pub open spec fn piece_at(self, side: char, sq: u8) -> int {
        choose|i: int| 0 <= i < self.side_seq(side).len() && self.side_seq(side)[i] == sq
    }

    /// No two pieces share an on-board square (exited and off-board pieces
    /// may share their sentinel values freely).
    pub open spec fn distinct_on_board(self) -> bool {
        &&& forall|i: int, j: int|
            0 <= i < j < self.w@.len() ==> !(on_board(self.w@[i]) && self.w@[i] == self.w@[j])
        &&& forall|i: int, j: int|
            0 <= i < j < self.b@.len() ==> !(on_board(self.b@[i]) && self.b@[i] == self.b@[j])
        &&& forall|i: int, j: int|
            0 <= i < self.w@.len() && 0 <= j < self.b@.len() ==> !(on_board(self.w@[i])
                && self.w@[i] == self.b@[j])
    }

    /// Well-formedness: every reachable state satisfies this.
    pub open spec fn wf(self) -> bool {
        &&& valid_side(self.turn)
        &&& self.w@.len() == PIECES
        &&& self.b@.len() == PIECES
        &&& forall|i: int| 0 <= i < PIECES ==> valid_pos(#[trigger] self.w@[i])
        &&& forall|i: int| 0 <= i < PIECES ==> valid_pos(#[trigger] self.b@[i])
        &&& self.distinct_on_board()
        &&& match self.last_roll {
            Some(r) => 1 <= r <= 5,
            None => true,
        }
    }

    /// The initial layout: W on the odd squares 1,3,5,7,9 and B on the even
    /// squares 2,4,6,8,10, W to move, no cached roll, game not over.
    pub open spec fn is_initial(self) -> bool {
        &&& self.turn == 'W'
        &&& self.last_roll is None
        &&& self.game_over == false
        &&& self.w@.len() == PIECES
        &&& self.b@.len() == PIECES
        &&& forall|i: int| 0 <= i < PIECES ==> self.w@[i] == 1 + 2 * i
        &&& forall|i: int| 0 <= i < PIECES ==> self.b@[i] == 2 + 2 * i
    }

    pub fn new() -> (g: GameState)
        ensures
            g.is_initial(),
            g.wf(),
    {
        let mut w: Vec<u8> = Vec::new();
        let mut b: Vec<u8> = Vec::new();
        let mut i: usize = 0;
        while i < PIECES
            invariant
                i <= PIECES,
                w@.len() == i,
                b@.len() == i,
                forall|k: int| 0 <= k < i ==> w@[k] == 1 + 2 * k,
                forall|k: int| 0 <= k < i ==> b@[k] == 2 + 2 * k,
            decreases PIECES - i,
        {
            w.push(1 + 2 * (i as u8));
            b.push(2 + 2 * (i as u8));
            i += 1;
        }
        let g = GameState { turn: 'W', last_roll: None, w, b, game_over: false };
        assert(g.distinct_on_board());
        g
    }

    /// Finds the piece standing on `square`, if any: `Some((side, index))`
    /// exactly when some piece occupies the square, `None` otherwise
    /// (including for values outside the board).
    pub fn board_occupant(&self, square: u8) -> (r: Option<(char, usize)>)
        requires
            self.wf(),
        ensures
            r is Some <==> self.sq_occupied(square),
            match r {
                Some((c, i)) => valid_side(c) && i < PIECES && self.side_seq(c)[i as int]
                    == square && on_board(square) && i as int == self.piece_at(c, square),
                None => !self.sq_occupied(square),
            },
    {
        if square == 0 || square > BOARD_MAX {
            return None;
        }
        let mut i: usize = 0;
        while i < PIECES
            invariant
                self.wf(),
                on_board(square),
                i <= PIECES,
                forall|k: int| 0 <= k < i ==> self.w@[k] != square,
            decreases PIECES - i,
        {
            if self.w[i] == square {
                assert(self.side_seq('W')[i as int] == square);
                assert(self.occupies('W', square));
                return Some(('W', i));
            }
            i += 1;
        }
        let mut j: usize = 0;
        while j < PIECES
            invariant
                self.wf(),
                on_board(square),
                j <= PIECES,
                forall|k: int| 0 <= k < PIECES ==> self.w@[k] != square,
                forall|k: int| 0 <= k < j ==> self.b@[k] != square,
            decreases PIECES - j,
        {
            if self.b[j] == square {
                assert(self.side_seq('B')[j as int] == square);
                assert(self.occupies('B', square));
                return Some(('B', j));
            }
            j += 1;
        }
        None
    }

    /// A board neighbour of `idx` is occupied by `side`.
    pub open spec fn spec_adjacent_same(self, idx: u8, side: char) -> bool {
        ||| (idx > 1 && self.occupies(side, (idx - 1) as u8))
        ||| (idx < BOARD_MAX && self.occupies(side, (idx + 1) as u8))
    }

    /// `idx` belongs to a wall of `side`: a maximal run of two or more
    /// consecutive squares occupied by `side`.  A square is in such a run
    /// exactly when it is occupied by `side` and at least one neighbour is
    /// occupied by `side` as well.
    pub open spec fn in_wall(self, idx: u8, side: char) -> bool {
        self.occupies(side, idx) && self.spec_adjacent_same(idx, side)
    }

    /// Both sides cannot occupy one square, and the occupying piece index is
    /// unique.
    pub proof fn lemma_occupant_unique(self, sq: u8)
        requires
            self.wf(),
        ensures
            !(self.occupies('W', sq) && self.occupies('B', sq)),
            forall|side: char, i: int, j: int|
                valid_side(side) && 0 <= i < PIECES && 0 <= j < PIECES && self.side_seq(side)[i]
                    == sq && self.side_seq(side)[j] == sq && on_board(sq) ==> i == j,
    {
    }

    pub fn is_adjacent_same_color(&self, idx: u8, side: char) -> (r: bool)
        requires
            self.wf(),
            valid_side(side),
        ensures
            r == self.spec_adjacent_same(idx, side),
    {
        let left = if idx > 1 {
            self.board_occupant(idx - 1)
        } else {
            None
        };
        let right = if idx < BOARD_MAX {
            self.board_occupant(idx + 1)
        } else {
            None
        };
        proof {
            if idx > 1 {
                self.lemma_occupant_unique((idx - 1) as u8);
            }
            if idx < BOARD_MAX {
                self.lemma_occupant_unique((idx + 1) as u8);
            }
        }
        let lmatch = match left {
            Some((c, _)) => c == side,
            None => false,
        };
        let rmatch = match right {
            Some((c, _)) => c == side,
            None => false,
        };
        lmatch || rmatch
    }

    pub fn is_blockade_square(&self, idx: u8, side: char) -> (r: bool)
        requires
            self.wf(),
            valid_side(side),
        ensures
            r == self.in_wall(idx, side),
    {
        proof {
            self.lemma_occupant_unique(idx);
        }
        match self.board_occupant(idx) {
            Some((c, _)) => {
                if c == side {
                    self.is_adjacent_same_color(idx, side)
                } else {
                    false
                }
            },
            None => false,
        }
    }

    /// Some square strictly after `from`, up to and including `to`, belongs
    /// to a wall of `enemy`.
    pub open spec fn spec_path_blocked(self, from: u8, to: u8, enemy: char) -> bool {
        exists|s: u8| from < s <= to && #[trigger] self.in_wall(s, enemy)
    }

    pub fn has_path_block(&self, from: u8, to: u8, enemy: char) -> (r: bool)
        requires
            self.wf(),
            valid_side(enemy),
            to <= BOARD_MAX,
        ensures
            r == self.spec_path_blocked(from, to, enemy),
    {
        if from >= to {
            return false;
        }
        let mut s: u8 = from + 1;
        while s <= to
            invariant
                self.wf(),
                valid_side(enemy),
                to <= BOARD_MAX,
                from < s <= to + 1,
                forall|k: u8| from < k < s ==> !#[trigger] self.in_wall(k, enemy),
            decreases to + 1 - s,
        {
            if self.is_blockade_square(s, enemy) {
                assert(self.spec_path_blocked(from, to, enemy));
                return true;
            }
            s += 1;
        }
        false
    }

    /// Piece `i` of `side` may move by `roll`: it stands on the board, its
    /// destination does not pass the exit square, the path to it is not
    /// blocked by an opposing wall, the destination holds no piece of the
    /// same side, an opposing piece there may be captured only outside the
    /// safe squares and outside an opposing wall, and landing on the water
    /// square needs a free safe square to reroute to.
    pub open spec fn candidate_ok(self, side: char, roll: u8, i: int) -> bool {
        let from = self.side_seq(side)[i];
        let dest = (from + roll) as u8;
        &&& on_board(from)
        &&& from + roll <= EXIT_SQUARE
        &&& !self.spec_path_blocked(from, dest, spec_opponent(side))
        &&& !self.occupies(side, dest)
        &&& (self.occupies(spec_opponent(side), dest) ==> !(is_safe_square(dest)
            || self.spec_adjacent_same(dest, spec_opponent(side))))
        &&& (dest == WATER_SQUARE ==> (!self.sq_occupied(SAFE_A) || !self.sq_occupied(SAFE_B)))
    }

    /// The legal moves among the first `n` pieces of `side`, in piece order:
    /// each entry is (piece index, source square, destination square).
    pub open spec fn legal_seq(self, side: char, roll: u8, n: int) -> Seq<(usize, u8, u8)>
        decreases n,
    {
        if n <= 0 {
            Seq::empty()
        } else {
            let rest = self.legal_seq(side, roll, n - 1);
            if self.candidate_ok(side, roll, n - 1) {
                rest.push(
                    ((n - 1) as usize, self.side_seq(side)[n - 1], (self.side_seq(side)[n - 1]
                        + roll) as u8),
                )
            } else {
                rest
            }
        }
    }

    /// The list of legal moves is empty exactly when no piece has one.
    pub proof fn lemma_legal_seq_empty(self, side: char, roll: u8, n: int)
        requires
            n >= 0,
        ensures
            self.legal_seq(side, roll, n).len() > 0 <==> exists|i: int|
                0 <= i < n && self.candidate_ok(side, roll, i),
        decreases n,
    {
        if n > 0 {
            self.lemma_legal_seq_empty(side, roll, n - 1);
        }
    }

    pub fn legal_moves(&self, side: char, roll: u8) -> (r: Vec<(usize, u8, u8)>)
        requires
            self.wf(),
            valid_side(side),
        ensures
            r@ == self.legal_seq(side, roll, PIECES as int),
            r@.len() > 0 <==> exists|i: int| 0 <= i < PIECES && self.candidate_ok(side, roll, i),
    {
        let enemy = opponent(side);
        let mut v: Vec<(usize, u8, u8)> = Vec::new();
        let mut idx: usize = 0;
        while idx < PIECES
            invariant
                self.wf(),
                valid_side(side),
                enemy == spec_opponent(side),
                idx <= PIECES,
                v@ == self.legal_seq(side, roll, idx as int),
            decreases PIECES - idx,
        {
            let from = if side == 'W' {
                self.w[idx]
            } else {
                self.b[idx]
            };
            assert(from == self.side_seq(side)[idx as int]);
            let ghost prev = v@;
            if from >= 1 && from <= BOARD_MAX {
                let dest16: u16 = from as u16 + roll as u16;
                if dest16 <= EXIT_SQUARE as u16 {
                    let dest: u8 = dest16 as u8;
                    if !self.has_path_block(from, dest, enemy) {
                        proof {
                            self.lemma_occupant_unique(dest);
                        }
                        let occupant = self.board_occupant(dest);
                        let mut ok = true;
                        match occupant {
                            Some((c, _)) => {
                                if c == side {
                                    ok = false;
                                } else if (dest == SAFE_A || dest == SAFE_B)
                                    || self.is_adjacent_same_color(dest, c) {
                                    ok = false;
                                }
                            },
                            None => {},
                        }
                        if ok && dest == WATER_SQUARE {
                            let s15_free = self.board_occupant(SAFE_A).is_none();
                            let s26_free = self.board_occupant(SAFE_B).is_none();
                            if !(s15_free || s26_free) {
                                ok = false;
                            }
                        }
                        if ok {
                            assert(self.candidate_ok(side, roll, idx as int));
                            v.push((idx, from, dest));
                        } else {
                            assert(!self.candidate_ok(side, roll, idx as int));
                        }
                    } else {
                        assert(!self.candidate_ok(side, roll, idx as int));
                    }
                } else {
                    assert(!self.candidate_ok(side, roll, idx as int));
                }
            } else {
                assert(!self.candidate_ok(side, roll, idx as int));
            }
            proof {
                assert(v@ == self.legal_seq(side, roll, idx as int + 1));
            }
            idx += 1;
        }
        proof {
            self.lemma_legal_seq_empty(side, roll, PIECES as int);
        }
        v
    }

    /// Simulates four independent binary trials, remaps a sum of zero to
    /// five, caches the roll, and reports whether the current side has any
    /// legal move.  Returns (roll, trial outcomes, default extra-turn flag,
    /// any legal move exists).
    pub fn roll(&mut self) -> (r: (u8, [u8; 4], bool, bool))
        requires
            old(self).wf(),
        ensures
            final(self).wf(),
            final(self).w == old(self).w,
            final(self).b == old(self).b,
            final(self).turn == old(self).turn,
            final(self).game_over == old(self).game_over,
            1 <= r.0 <= 5,
            final(self).last_roll == Some(r.0),
            r.2 == (r.0 == 4 || r.0 == 5),
            forall|i: int| 0 <= i < 4 ==> #[trigger] r.1@[i] <= 1,
            ({
                let s = r.1@[0] + r.1@[1] + r.1@[2] + r.1@[3];
                r.0 == if s == 0 {
                    5
                } else {
                    s
                }
            }),
            r.3 <==> exists|i: int|
                0 <= i < PIECES && old(self).candidate_ok(old(self).turn, r.0, i),
    {
        let f0 = crate::ext::coin_flip();
        let f1 = crate::ext::coin_flip();
        let f2 = crate::ext::coin_flip();
        let f3 = crate::ext::coin_flip();
        let faces: [u8; 4] = [f0, f1, f2, f3];
        let sum = f0 + f1 + f2 + f3;
        let roll = if sum == 0 {
            5
        } else {
            sum
        };
        let legal = self.legal_moves(self.turn, roll);
        self.last_roll = Some(roll);
        let grants = roll == 4 || roll == 5;
        (roll, faces, grants, legal.len() > 0)
    }
}

/// Every piece of the sequence has left the board.
pub open spec fn all_exited(s: Seq<u8>) -> bool {
    forall|i: int| 0 <= i < s.len() ==> s[i] == EXITED
}

/// The move's path crosses, lands on, or culminates at the water square.
pub open spec fn spec_passes_water(from: u8, to: u8) -> bool {
    from < WATER_SQUARE && WATER_SQUARE <= to
}

impl GameState {
    pub fn side_exited(&self, side: char) -> (r: bool)
        requires
            self.wf(),
            valid_side(side),
        ensures
            r == all_exited(self.side_seq(side)),
    {
        let mut i: usize = 0;
        while i < PIECES
            invariant
                self.wf(),
                valid_side(side),
                i <= PIECES,
                forall|k: int| 0 <= k < i ==> self.side_seq(side)[k] == EXITED,
            decreases PIECES - i,
        {
            let p = if side == 'W' {
                self.w[i]
            } else {
                self.b[i]
            };
            if p != EXITED {
                return false;
            }
            i += 1;
        }
        true
    }

    fn set_pos(&mut self, side: char, idx: usize, v: u8)
        requires
            valid_side(side),
            idx < old(self).side_seq(side).len(),
        ensures
            final(self).side_seq(side) == old(self).side_seq(side).update(idx as int, v),
            final(self).side_seq(spec_opponent(side)) == old(self).side_seq(spec_opponent(side)),
            final(self).turn == old(self).turn,
            final(self).last_roll == old(self).last_roll,
            final(self).game_over == old(self).game_over,
    {
        if side == 'W' {
            self.w[idx] = v;
        } else {
            self.b[idx] = v;
        }
    }

    /// The full validity check `applyMove` re-runs before mutating anything:
    /// it is `side`'s turn, `roll` matches the cached roll, the piece at
    /// `idx` sits at `from`, `to` is within bounds, the path is not blocked
    /// by an opposing wall, a water landing has a free safe square, and a
    /// plain destination holds no own piece and no protected opposing piece.
    pub open spec fn spec_move_valid(self, side: char, idx: int, from: u8, to: u8, roll: u8) -> bool {
        &&& self.turn == side
        &&& self.last_roll == Some(roll)
        &&& 0 <= idx < PIECES
        &&& self.side_seq(side)[idx] == from
        &&& to <= EXIT_SQUARE
        &&& !self.spec_path_blocked(from, to, spec_opponent(side))
        &&& (to == WATER_SQUARE ==> !self.sq_occupied(SAFE_A) || !self.sq_occupied(SAFE_B))
        &&& (to != WATER_SQUARE && to != EXIT_SQUARE ==> {
            &&& !self.occupies(side, to)
            &&& (self.occupies(spec_opponent(side), to) ==> !(is_safe_square(to)
                || self.spec_adjacent_same(to, spec_opponent(side))))
        })
    }

    /// Where a piece landing on the water square is rerouted to: the first
    /// free safe square, 15 before 26.
    pub open spec fn water_target(self) -> u8 {
        if !self.sq_occupied(SAFE_A) {
            SAFE_A
        } else {
            SAFE_B
        }
    }

    /// The positions of `which`'s pieces after `side` moves piece `idx`
    /// from `from` to `to`: the mover's piece goes to the exit sentinel,
    /// the free safe square, or `to`; a captured opposing piece goes to
    /// `from`; everything else stays.
    pub open spec fn spec_side_after(
        self,
        side: char,
        idx: int,
        from: u8,
        to: u8,
        which: char,
    ) -> Seq<u8> {
        let opp = spec_opponent(side);
        if which == side {
            let target = if to == EXIT_SQUARE {
                EXITED
            } else if to == WATER_SQUARE {
                self.water_target()
            } else {
                to
            };
            self.side_seq(which).update(idx, target)
        } else {
            if to != EXIT_SQUARE && to != WATER_SQUARE && self.occupies(opp, to) {
                self.side_seq(which).update(self.piece_at(opp, to), from)
            } else {
                self.side_seq(which)
            }
        }
    }

    /// Validates fully, then executes exactly one of: Exit (`to` is the exit
    /// square), Water (`to` is the water square: reroute to the free safe
    /// square), Capture (an opposing piece at `to` relocates to `from`), or
    /// Move (empty destination).  Rejects without mutating anything when any
    /// validation fails.  Returns (accepted, grants extra turn, crossed
    /// water, captured piece if any).
    pub fn apply_move(&mut self, side: char, idx: usize, from: u8, to: u8, roll: u8) -> (r: (
        bool,
        bool,
        bool,
        Option<(char, usize)>,
    ))
        requires
            old(self).wf(),
        ensures
            final(self).wf(),
            r.0 == old(self).spec_move_valid(side, idx as int, from, to, roll),
            !r.0 ==> *final(self) == *old(self) && r.1 == false && r.2 == false && r.3 is None,
            r.0 ==> {
                let os = *old(self);
                let opp = spec_opponent(side);
                &&& final(self).turn == os.turn
                &&& final(self).last_roll == os.last_roll
                &&& r.2 == spec_passes_water(from, to)
                &&& (if to == EXIT_SQUARE {
                    &&& final(self).side_seq(side) =~= os.side_seq(side).update(
                        idx as int,
                        EXITED,
                    )
                    &&& final(self).side_seq(opp) =~= os.side_seq(opp)
                    &&& r.3 is None
                } else if to == WATER_SQUARE {
                    &&& final(self).side_seq(side) =~= os.side_seq(side).update(
                        idx as int,
                        os.water_target(),
                    )
                    &&& final(self).side_seq(opp) =~= os.side_seq(opp)
                    &&& r.3 is None
                } else if os.occupies(opp, to) {
                    let e = os.piece_at(opp, to);
                    &&& final(self).side_seq(side) =~= os.side_seq(side).update(idx as int, to)
                    &&& final(self).side_seq(opp) =~= os.side_seq(opp).update(e, from)
                    &&& r.3 == Some((opp, e as usize))
                } else {
                    &&& final(self).side_seq(side) =~= os.side_seq(side).update(idx as int, to)
                    &&& final(self).side_seq(opp) =~= os.side_seq(opp)
                    &&& r.3 is None
                })
                &&& final(self).side_seq(side) =~= os.spec_side_after(side, idx as int, from, to, side)
                &&& final(self).side_seq(opp) =~= os.spec_side_after(side, idx as int, from, to, opp)
                &&& final(self).game_over == (os.game_over || all_exited(
                    final(self).side_seq('W'),
                ) || all_exited(final(self).side_seq('B')))
                &&& r.1 == ((roll == 4 || roll == 5) && !spec_passes_water(from, to) && to
                    != WATER_SQUARE && !final(self).game_over)
            },
    {
        if self.turn != side {
            return (false, false, false, None);
        }
        let roll_ok = match self.last_roll {
            Some(x) => x == roll,
            None => false,
        };
        if !roll_ok {
            return (false, false, false, None);
        }
        if idx >= PIECES {
            return (false, false, false, None);
        }
        let cur_from = if side == 'W' {
            self.w[idx]
        } else {
            self.b[idx]
        };
        if cur_from != from {
            return (false, false, false, None);
        }
        if to > EXIT_SQUARE {
            return (false, false, false, None);
        }
        let enemy = opponent(side);
        if self.has_path_block(from, to, enemy) {
            return (false, false, false, None);
        }
        let passes = from < WATER_SQUARE && WATER_SQUARE <= to;
        let grants = roll == 4 || roll == 5;
        let mut extra = grants;
        let mut captured: Option<(char, usize)> = None;

        if to == EXIT_SQUARE {
            if passes {
                extra = false;
            }
            self.set_pos(side, idx, EXITED);
        } else if to == WATER_SQUARE {
            let s15_free = self.board_occupant(SAFE_A).is_none();
            let s26_free = self.board_occupant(SAFE_B).is_none();
            if !(s15_free || s26_free) {
                return (false, false, false, None);
            }
            let target = if s15_free {
                SAFE_A
            } else {
                SAFE_B
            };
            extra = false;
            self.set_pos(side, idx, target);
        } else {
            proof {
                self.lemma_occupant_unique(to);
            }
            match self.board_occupant(to) {
                Some((c, eidx)) => {
                    if c == side {
                        return (false, false, false, None);
                    }
                    if to == SAFE_A || to == SAFE_B || self.is_adjacent_same_color(to, c) {
                        return (false, false, false, None);
                    }
                    if passes {
                        extra = false;
                    }
                    self.set_pos(side, idx, to);
                    self.set_pos(c, eidx, from);
                    captured = Some((c, eidx));
                },
                None => {
                    if passes {
                        extra = false;
                    }
                    self.set_pos(side, idx, to);
                },
            }
        }

        let w_done = self.side_exited('W');
        let b_done = self.side_exited('B');
        if w_done || b_done {
            self.game_over = true;
        }
        (true, extra && !self.game_over, passes, captured)
    }
}

/// A plain copy of the whole game position, as broadcast to clients.
#[derive(Debug)]
pub struct GameSnapshot {
    pub w: Vec<u8>,
    pub b: Vec<u8>,
    pub turn: char,
    pub roll: Option<u8>,
    pub game_over: bool,
}

impl GameState {
    pub fn snapshot(&self) -> (s: GameSnapshot)
        ensures
            s.w@ == self.w@,
            s.b@ == self.b@,
            s.turn == self.turn,
            s.roll == self.last_roll,
            s.game_over == self.game_over,
    {
        GameSnapshot {
            w: self.w.clone(),
            b: self.b.clone(),
            turn: self.turn,
            roll: self.last_roll,
            game_over: self.game_over,
        }
    }
}

/// What an accepted move does at its destination.
pub enum MoveAction {
    Exit,
    Water,
    Capture,
    Move,
}

impl GameState {
    /// Classifies the destination of a move of `side` to `to`, in the order
    /// `apply_move` decides it: the exit square, the water square, an
    /// occupied square (capture), an empty square (plain move).
    pub open spec fn spec_action(self, side: char, to: u8) -> MoveAction {
        if to == EXIT_SQUARE {
            MoveAction::Exit
        } else if to == WATER_SQUARE {
            MoveAction::Water
        } else if self.occupies(spec_opponent(side), to) {
            MoveAction::Capture
        } else {
            MoveAction::Move
        }
    }

    /// Exactly one of the four destination actions applies to any move:
    /// the four classifying conditions are mutually exclusive and
    /// exhaustive, and `spec_action` picks the one that holds.
    pub proof fn lemma_action_exclusive(self, side: char, to: u8)
        ensures
            ({
                let a = self.spec_action(side, to);
                &&& (to == EXIT_SQUARE <==> a is Exit)
                &&& (to == WATER_SQUARE <==> a is Water)
                &&& ((to != EXIT_SQUARE && to != WATER_SQUARE && self.occupies(
                    spec_opponent(side),
                    to,
                )) <==> a is Capture)
                &&& ((to != EXIT_SQUARE && to != WATER_SQUARE && !self.occupies(
                    spec_opponent(side),
                    to,
                )) <==> a is Move)
            }),
    {
    }

    /// Every move that `legal_moves` offers re-validates: with the same
    /// side to move and the matching cached roll, `apply_move` accepts it.
    pub proof fn lemma_legal_moves_accepted(self, side: char, roll: u8, i: int)
        requires
            self.wf(),
            self.turn == side,
            self.last_roll == Some(roll),
            0 <= i < PIECES,
            self.candidate_ok(side, roll, i),
        ensures
            self.spec_move_valid(
                side,
                i,
                self.side_seq(side)[i],
                (self.side_seq(side)[i] + roll) as u8,
                roll,
            ),
    {
    }

    /// A safe square, and a square inside an opposing wall, is never a
    /// valid capture destination: no accepted move captures there, and
    /// `legal_moves` never offers a move whose destination would.
    pub proof fn lemma_no_capture_on_protected(self, side: char, i: int, from: u8, to: u8, roll: u8)
        requires
            self.wf(),
            self.occupies(spec_opponent(side), to),
            is_safe_square(to) || self.in_wall(to, spec_opponent(side)),
        ensures
            !(self.spec_action(side, to) is Capture && self.spec_move_valid(
                side,
                i,
                from,
                to,
                roll,
            )),
            0 <= i < PIECES && self.side_seq(side)[i] + roll == to ==> !self.candidate_ok(
                side,
                roll,
                i,
            ),
    {
    }
}

} // verus!
