//! The game state machine.
//!
//! Owns the grid and the active piece and orchestrates spawning,
//! movement and rotation commands, gravity, locking, line clearing,
//! scoring and the top-out condition. Every mutation of the piece goes
//! through the `fits` gate: a candidate is computed, validated against
//! the grid, and only then committed; a rejected move is a normal,
//! silent outcome. The only terminal condition is top-out: a freshly
//! spawned piece that does not fit sets the `game_over` flag.

use vstd::prelude::*;

use crate::grid::Grid;
use crate::grid::cells_view;
use crate::grid::cleared_count;
use crate::grid::empty_row;
use crate::grid::view_clear;
use crate::grid::view_lock;
use crate::piece::Piece;
use crate::piece::PieceKind;
use crate::piece::spec_rotation_count;
use crate::random::pick_kind;
use crate::rules::fits;
use crate::rules::lemma_fits_anchor_bounds;
use crate::rules::spec_fits;

verus! {

/// The abstract commands the engine accepts from input collaborators.
#[derive(Clone, Copy, Debug, PartialEq, Eq, Structural)]
pub enum Command {
    MoveLeft,
    MoveRight,
    SoftDropTick,
    Rotate,
    HardDrop,
}

/// Milliseconds the gravity clock accumulates before a piece falls one
/// row.
pub const DROP_INTERVAL_MS: u64 = 400;

/// Points for clearing `rows` rows at once: 0, 100, 300, 500, then 200
/// per row from four rows up. Strictly increasing, and clearing rows
/// together always pays more than clearing them one by one.
pub open spec fn spec_score_for(rows: int) -> int {
    if rows <= 0 {
        0
    } else if rows == 1 {
        100
    } else if rows == 2 {
        300
    } else if rows == 3 {
        500
    } else {
        200 * rows
    }
}

/// The points awarded for clearing `rows` rows at once.
pub fn score_for(rows: usize) -> (points: u64)
    requires
        rows <= 0x4000_0000,
    ensures
        points as int == spec_score_for(rows as int),
{
    if rows == 0 {
        0
    } else if rows == 1 {
        100
    } else if rows == 2 {
        300
    } else if rows == 3 {
        500
    } else {
        200 * (rows as u64)
    }
}

/// The score after adding `points`, saturating at the integer limit.
pub open spec fn spec_add_score(score: u64, points: int) -> u64 {
    if score + points > u64::MAX {
        u64::MAX
    } else {
        (score + points) as u64
    }
}

/// The spawn anchor column: the piece's 4-wide box centered on the
/// board.
pub open spec fn spec_spawn_col(width: int) -> int {
    if width >= 4 {
        (width - 4) / 2
    } else {
        0
    }
}

/// The piece a spawn produces: `kind` at the fixed top-center anchor,
/// rotation state 0.
pub open spec fn spec_spawn_piece(g: Grid, kind: PieceKind) -> Piece {
    Piece { kind, rot: 0u8, col: spec_spawn_col(g.width as int) as i32, row: 0i32 }
}

/// The whole game: grid, active piece (absent only between a lock and
/// the next spawn, and after top-out), score, gravity clock, and the
/// terminal flag.
pub struct GameState {
    pub grid: Grid,
    pub active: Option<Piece>,
    pub score: u64,
    pub gravity_ms: u64,
    pub drop_interval_ms: u64,
    pub game_over: bool,
}

/// The Spawning transition, on an unchanged grid: a fresh piece of
/// `kind` appears at the spawn anchor if its footprint is free;
/// otherwise the game tops out with no active piece.
pub open spec fn spawn_rel(pre: GameState, kind: PieceKind, post: GameState) -> bool {
    let sp = spec_spawn_piece(pre.grid, kind);
    &&& post.grid == pre.grid
    &&& post.score == pre.score
    &&& post.drop_interval_ms == pre.drop_interval_ms
    &&& if spec_fits(pre.grid, sp) {
        post.active == Some(sp) && !post.game_over
    } else {
        post.active is None && post.game_over
    }
}

/// A horizontal move of the active piece `p` by `dx`: committed when
/// the shifted piece fits, silently rejected otherwise.
pub open spec fn shift_rel(pre: GameState, p: Piece, dx: int, post: GameState) -> bool {
    let cand = Piece { col: (p.col + dx) as i32, ..p };
    &&& post.grid == pre.grid
    &&& post.score == pre.score
    &&& post.drop_interval_ms == pre.drop_interval_ms
    &&& post.game_over == pre.game_over
    &&& post.active == if spec_fits(pre.grid, cand) {
        Some(cand)
    } else {
        pre.active
    }
}

/// A rotation of the active piece `p` to its next rotation state:
/// committed when the rotated piece fits, silently rejected otherwise.
pub open spec fn rotate_rel(pre: GameState, p: Piece, post: GameState) -> bool {
    let cand = p.spec_rotated_cw();
    &&& post.grid == pre.grid
    &&& post.score == pre.score
    &&& post.drop_interval_ms == pre.drop_interval_ms
    &&& post.game_over == pre.game_over
    &&& post.active == if spec_fits(pre.grid, cand) {
        Some(cand)
    } else {
        pre.active
    }
}

/// Locking piece `q`, clearing full rows, scoring the clear, and the
/// immediate respawn with `kind`.
pub open spec fn lock_spawn_rel(pre: GameState, q: Piece, kind: PieceKind, post: GameState) -> bool {
    let locked = view_lock(pre.grid@, q);
    let cleared = cleared_count(locked);
    let sp = spec_spawn_piece(post.grid, kind);
    &&& post.grid.width == pre.grid.width
    &&& post.grid.height == pre.grid.height
    &&& post.grid@ == view_clear(locked, pre.grid.width as int)
    &&& post.score == spec_add_score(pre.score, spec_score_for(cleared))
    &&& post.drop_interval_ms == pre.drop_interval_ms
    &&& if spec_fits(post.grid, sp) {
        post.active == Some(sp) && !post.game_over
    } else {
        post.active is None && post.game_over
    }
}

/// One falling step of the active piece `p`: move one row down when
/// that fits, otherwise lock, clear, score and respawn with `kind`.
pub open spec fn drop_step_rel(pre: GameState, p: Piece, kind: PieceKind, post: GameState) -> bool {
    let down = Piece { row: (p.row + 1) as i32, ..p };
    if spec_fits(pre.grid, down) {
        &&& post.grid == pre.grid
        &&& post.score == pre.score
        &&& post.drop_interval_ms == pre.drop_interval_ms
        &&& post.game_over == pre.game_over
        &&& post.active == Some(down)
    } else {
        lock_spawn_rel(pre, p, kind, post)
    }
}

/// `q` is where a hard drop of `p` lands: same column and orientation,
/// every position from `p` straight down to `q` fits, one row further
/// does not.
pub open spec fn is_landing(g: Grid, p: Piece, q: Piece) -> bool {
    &&& q.kind == p.kind
    &&& q.rot == p.rot
    &&& q.col == p.col
    &&& p.row <= q.row
    &&& forall|y: int| p.row <= y <= q.row ==> spec_fits(g, #[trigger] p.with_row(y))
    &&& !spec_fits(g, p.with_row(q.row + 1))
}

/// A hard drop has exactly one landing position: the existential in
/// `spec_step` picks out a single piece.
pub proof fn lemma_landing_unique(g: Grid, p: Piece, q1: Piece, q2: Piece)
    requires
        is_landing(g, p, q1),
        is_landing(g, p, q2),
    ensures
        q1 == q2,
{
    if q1.row < q2.row {
        assert(spec_fits(g, p.with_row(q1.row + 1)));
    }
    if q2.row < q1.row {
        assert(spec_fits(g, p.with_row(q2.row + 1)));
    }
}

/// What one command does to the machine. `kind` is the piece a spawn
/// would use, when the step spawns one. The gravity clock is not
/// constrained here except on a finished game.
pub open spec fn spec_step(pre: GameState, cmd: Command, kind: PieceKind, post: GameState) -> bool {
    if pre.game_over {
        post == pre
    } else if pre.active is None {
        spawn_rel(pre, kind, post)
    } else {
        let p = pre.active->0;
        match cmd {
            Command::MoveLeft => shift_rel(pre, p, -1, post),
            Command::MoveRight => shift_rel(pre, p, 1, post),
            Command::Rotate => rotate_rel(pre, p, post),
            Command::SoftDropTick => drop_step_rel(pre, p, kind, post),
            Command::HardDrop => exists|q: Piece|
                is_landing(pre.grid, p, q) && #[trigger] lock_spawn_rel(pre, q, kind, post),
        }
    }
}

/// What advancing the gravity clock by `delta_ms` does: a finished game
/// is untouched; a waiting board spawns `kind` and resets the clock;
/// otherwise the clock accumulates and, on reaching the drop interval,
/// resets while the piece takes one falling step.
pub open spec fn tick_rel(pre: GameState, delta_ms: u64, kind: PieceKind, post: GameState) -> bool {
    if pre.game_over {
        post == pre
    } else if pre.active is None {
        spawn_rel(pre, kind, post) && post.gravity_ms == 0
    } else {
        let acc = pre.gravity_ms.saturating_add(delta_ms);
        if acc >= pre.drop_interval_ms {
            drop_step_rel(pre, pre.active->0, kind, post) && post.gravity_ms == 0
        } else {
            post == (GameState { gravity_ms: acc, ..pre })
        }
    }
}

impl GameState {
    /// The machine's invariant: a well-formed grid, and an active piece
    /// that is well formed and fits; a finished game has no active
    /// piece.
    pub open spec fn inv(self) -> bool {
        &&& self.grid.wf()
        &&& (self.active matches Some(p) ==> p.wf() && spec_fits(self.grid, p))
        &&& (self.game_over ==> self.active is None)
    }

    /// A fresh game on an empty board of the given dimensions. No piece
    /// is active yet: the first step or tick spawns one.
    pub fn new(width: i32, height: i32) -> (s: GameState)
        requires
            1 <= width <= 0x4000_0000,
            1 <= height <= 0x4000_0000,
        ensures
            s.inv(),
            s.grid.width == width,
            s.grid.height == height,
            s.grid@.len() == height,
            forall|r: int| 0 <= r < height ==> #[trigger] s.grid@[r] == empty_row(width as int),
            s.active is None,
            s.score == 0,
            s.gravity_ms == 0,
            s.drop_interval_ms == DROP_INTERVAL_MS,
            !s.game_over,
    {
        GameState {
            grid: Grid::new(width, height),
            active: None,
            score: 0,
            gravity_ms: 0,
            drop_interval_ms: DROP_INTERVAL_MS,
            game_over: false,
        }
    }

    /// Restart after (or before) a game over: empty grid of the same
    /// dimensions, zero score, clock reset, no active piece; the next
    /// step or tick spawns.
    pub fn restart(&mut self)
        requires
            old(self).inv(),
        ensures
            final(self).inv(),
            final(self).grid.width == old(self).grid.width,
            final(self).grid.height == old(self).grid.height,
            final(self).grid@.len() == old(self).grid.height,
            forall|r: int|
                0 <= r < old(self).grid.height ==> #[trigger] final(self).grid@[r] == empty_row(
                    old(self).grid.width as int,
                ),
            final(self).active is None,
            final(self).score == 0,
            final(self).gravity_ms == 0,
            final(self).drop_interval_ms == old(self).drop_interval_ms,
            !final(self).game_over,
    {
        let w = self.grid.width;
        let h = self.grid.height;
        self.grid = Grid::new(w, h);
        self.active = None;
        self.score = 0;
        self.gravity_ms = 0;
        self.game_over = false;
    }

    /// The Spawning transition: create a piece of `kind` at the fixed
    /// spawn anchor with rotation state 0. If its footprint is blocked
    /// or off the board, the game tops out instead.
    pub fn spawn(&mut self, kind: PieceKind)
        requires
            old(self).inv(),
            !old(self).game_over,
            old(self).active is None,
        ensures
            final(self).inv(),
            spawn_rel(*old(self), kind, *final(self)),
            final(self).gravity_ms == old(self).gravity_ms,
    {
        let w = self.grid.width;
        let col: i32 = if w >= 4 {
            (w - 4) / 2
        } else {
            0
        };
        let p = Piece { kind, rot: 0, col, row: 0 };
        proof {
            assert(spec_rotation_count(kind) >= 1);
            assert(col as int == spec_spawn_col(w as int));
            assert(p == spec_spawn_piece(self.grid, kind));
            assert(p.wf());
        }
        if fits(&self.grid, &p) {
            self.active = Some(p);
        } else {
            self.active = None;
            self.game_over = true;
        }
    }

    /// Try to shift the active piece one column left or right; a shift
    /// that does not fit is rejected and the piece stays put.
    fn try_shift(&mut self, dx: i32)
        requires
            old(self).inv(),
            !old(self).game_over,
            old(self).active is Some,
            dx == 1 || dx == -1,
        ensures
            final(self).inv(),
            shift_rel(*old(self), old(self).active->0, dx as int, *final(self)),
            final(self).gravity_ms == old(self).gravity_ms,
    {
        let p = self.active.unwrap();
        proof {
            lemma_fits_anchor_bounds(self.grid, p);
        }
        let cand = p.moved(dx, 0);
        if fits(&self.grid, &cand) {
            self.active = Some(cand);
        }
    }

    /// Try to rotate the active piece to its next rotation state; a
    /// rotation that does not fit is rejected outright (no wall kicks).
    fn try_rotate(&mut self)
        requires
            old(self).inv(),
            !old(self).game_over,
            old(self).active is Some,
        ensures
            final(self).inv(),
            rotate_rel(*old(self), old(self).active->0, *final(self)),
            final(self).gravity_ms == old(self).gravity_ms,
    {
        let p = self.active.unwrap();
        let cand = p.rotated_cw();
        if fits(&self.grid, &cand) {
            self.active = Some(cand);
        }
    }

    /// Lock the active piece into the grid, clear full rows, add the
    /// score for the clear, and immediately spawn a piece of `kind`.
    fn lock_and_respawn(&mut self, kind: PieceKind)
        requires
            old(self).inv(),
            !old(self).game_over,
            old(self).active is Some,
        ensures
            final(self).inv(),
            lock_spawn_rel(*old(self), old(self).active->0, kind, *final(self)),
            final(self).gravity_ms == old(self).gravity_ms,
    {
        let p = self.active.unwrap();
        self.active = None;
        self.grid.lock(&p);
        let cleared = self.grid.clear_full_rows();
        proof {
            assert(cleared <= old(self).grid.height);
        }
        let points = score_for(cleared);
        self.score = self.score.saturating_add(points);
        self.spawn(kind);
    }

    /// One falling step: move the active piece one row down if that
    /// fits; otherwise it can fall no further and is locked in, rows
    /// are cleared and scored, and the next piece spawns.
    fn drop_step(&mut self, kind: PieceKind)
        requires
            old(self).inv(),
            !old(self).game_over,
            old(self).active is Some,
        ensures
            final(self).inv(),
            drop_step_rel(*old(self), old(self).active->0, kind, *final(self)),
            final(self).gravity_ms == old(self).gravity_ms,
    {
        let p = self.active.unwrap();
        proof {
            lemma_fits_anchor_bounds(self.grid, p);
        }
        let down = p.moved(0, 1);
        if fits(&self.grid, &down) {
            self.active = Some(down);
        } else {
            self.lock_and_respawn(kind);
        }
    }

    /// Hard drop: send the active piece straight down to the last
    /// position where it fits, lock it there at once, clear, score and
    /// respawn with `kind`.
    fn hard_drop(&mut self, kind: PieceKind)
        requires
            old(self).inv(),
            !old(self).game_over,
            old(self).active is Some,
        ensures
            final(self).inv(),
            exists|q: Piece|
                is_landing(old(self).grid, old(self).active->0, q) && #[trigger] lock_spawn_rel(
                    *old(self),
                    q,
                    kind,
                    *final(self),
                ),
            final(self).gravity_ms == old(self).gravity_ms,
    {
        let p = self.active.unwrap();
        let mut cur = p;
        proof {
            assert(p.with_row(p.row as int) == p);
        }
        loop
            invariant
                self.inv(),
                !self.game_over,
                self.active == Some(p),
                *self == *old(self),
                cur.kind == p.kind,
                cur.rot == p.rot,
                cur.col == p.col,
                p.row <= cur.row,
                cur.wf(),
                spec_fits(self.grid, cur),
                forall|y: int| p.row <= y <= cur.row ==> spec_fits(self.grid, #[trigger] p.with_row(y)),
            ensures
                *self == *old(self),
                cur.kind == p.kind && cur.rot == p.rot && cur.col == p.col,
                p.row <= cur.row,
                cur.wf(),
                spec_fits(self.grid, cur),
                forall|y: int| p.row <= y <= cur.row ==> spec_fits(self.grid, #[trigger] p.with_row(y)),
                !spec_fits(self.grid, p.with_row(cur.row + 1)),
            decreases self.grid.height - cur.row,
        {
            proof {
                lemma_fits_anchor_bounds(self.grid, cur);
            }
            let down = cur.moved(0, 1);
            proof {
                assert(p.with_row(cur.row + 1) == down);
            }
            if fits(&self.grid, &down) {
                cur = down;
            } else {
                break;
            }
        }
        self.active = Some(cur);
        let ghost mid = *self;
        self.lock_and_respawn(kind);
        proof {
            assert(is_landing(old(self).grid, p, cur));
            assert(lock_spawn_rel(mid, cur, kind, *self));
            assert(lock_spawn_rel(*old(self), cur, kind, *self));
        }
    }

    /// Apply one command, with `kind` the piece a spawn would use. A
    /// finished game ignores commands; a waiting board spawns first.
    pub fn step(&mut self, cmd: Command, kind: PieceKind)
        requires
            old(self).inv(),
        ensures
            final(self).inv(),
            spec_step(*old(self), cmd, kind, *final(self)),
            final(self).gravity_ms == old(self).gravity_ms,
    {
        if self.game_over {
            return ;
        }
        if self.active.is_none() {
            self.spawn(kind);
            return ;
        }
        match cmd {
            Command::MoveLeft => self.try_shift(-1),
            Command::MoveRight => self.try_shift(1),
            Command::Rotate => self.try_rotate(),
            Command::SoftDropTick => self.drop_step(kind),
            Command::HardDrop => self.hard_drop(kind),
        }
    }

    /// Apply one abstract input command, drawing the kind of any
    /// spawned piece at random.
    pub fn apply_command(&mut self, cmd: Command)
        requires
            old(self).inv(),
        ensures
            final(self).inv(),
            exists|kind: PieceKind| #[trigger] spec_step(*old(self), cmd, kind, *final(self)),
            final(self).gravity_ms == old(self).gravity_ms,
    {
        let kind = pick_kind();
        self.step(cmd, kind);
    }

    /// Advance the gravity clock by `delta_ms` and perform the gravity
    /// check, spawning a piece of `kind` when the board is waiting for
    /// one or when the falling piece locks.
    pub fn tick_with(&mut self, delta_ms: u64, kind: PieceKind)
        requires
            old(self).inv(),
        ensures
            final(self).inv(),
            tick_rel(*old(self), delta_ms, kind, *final(self)),
    {
        if self.game_over {
            return ;
        }
        if self.active.is_none() {
            self.spawn(kind);
            self.gravity_ms = 0;
            return ;
        }
        let acc = self.gravity_ms.saturating_add(delta_ms);
        if acc >= self.drop_interval_ms {
            self.gravity_ms = 0;
            self.drop_step(kind);
        } else {
            self.gravity_ms = acc;
        }
    }

    /// Advance the gravity clock by `delta_ms`, drawing the kind of any
    /// spawned piece at random.
    pub fn tick(&mut self, delta_ms: u64)
        requires
            old(self).inv(),
        ensures
            final(self).inv(),
            exists|kind: PieceKind| #[trigger] tick_rel(*old(self), delta_ms, kind, *final(self)),
    {
        let kind = pick_kind();
        self.tick_with(delta_ms, kind);
    }

    /// A read-only copy of everything a renderer needs.
    pub fn snapshot(&self) -> (s: Snapshot)
        requires
            self.inv(),
        ensures
            s.width == self.grid.width,
            s.height == self.grid.height,
            cells_view(s.cells@) == self.grid@,
            s.active == self.active,
            s.score == self.score,
            s.game_over == self.game_over,
    {
        let h = self.grid.height;
        let mut cells: Vec<Vec<Option<PieceKind>>> = Vec::new();
        let mut r: i32 = 0;
        while r < h
            invariant
                self.inv(),
                h == self.grid.height,
                0 <= r <= h,
                cells@.len() == r,
                forall|j: int| 0 <= j < r ==> #[trigger] cells@[j]@ == self.grid@[j],
            decreases h - r,
        {
            let row = self.grid.copy_row(r);
            cells.push(row);
            r = r + 1;
        }
        proof {
            assert(cells_view(cells@) =~= self.grid@);
        }
        Snapshot {
            width: self.grid.width,
            height: self.grid.height,
            cells,
            active: self.active,
            score: self.score,
            game_over: self.game_over,
        }
    }
}

/// A plain copy of the visible state: the locked cells, the active
/// piece, the score and the terminal flag. Holds no references into
/// the machine.
pub struct Snapshot {
    pub width: i32,
    pub height: i32,
    pub cells: Vec<Vec<Option<PieceKind>>>,
    pub active: Option<Piece>,
    pub score: u64,
    pub game_over: bool,
}

} // verus!
