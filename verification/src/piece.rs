//! The piece catalog and live piece instances.
//!
//! The catalog is a fixed table: for each of the seven kinds, an ordered
//! list of rotation states, each a list of exactly four cell offsets from
//! an anchor. Every state is a 90-degree rotation of the previous one
//! about a kind-appropriate pivot, so rotating a piece is a table lookup,
//! never per-cell arithmetic. A `Piece` is a kind, a rotation index and a
//! mutable anchor; its absolute cells are anchor plus offsets.

use vstd::prelude::*;

verus! {

/// The seven tetromino kinds.
#[derive(Clone, Copy, Debug, PartialEq, Eq, Structural)]
pub enum PieceKind {
    I,
    O,
    T,
    S,
    Z,
    J,
    L,
}

/// How many distinct rotation states a kind has.
pub open spec fn spec_rotation_count(kind: PieceKind) -> int {
    match kind {
        PieceKind::O => 1,
        PieceKind::I => 2,
        PieceKind::S => 2,
        PieceKind::Z => 2,
        PieceKind::T => 4,
        PieceKind::J => 4,
        PieceKind::L => 4,
    }
}

/// Number of rotation states of `kind`: 1 for O, 2 for I, S and Z,
/// 4 for T, J and L.
pub fn rotation_count(kind: PieceKind) -> (n: u8)
    ensures
        n as int == spec_rotation_count(kind),
        1 <= n <= 4,
{
    match kind {
        PieceKind::O => 1,
        PieceKind::I => 2,
        PieceKind::S => 2,
        PieceKind::Z => 2,
        PieceKind::T => 4,
        PieceKind::J => 4,
        PieceKind::L => 4,
    }
}

/// The four cell offsets `(column, row)` of one rotation state, relative
/// to the piece's anchor. All offsets lie inside the 4 x 4 box whose
/// top-left corner is the anchor. Rows grow downward.
pub open spec fn spec_shape_offsets(kind: PieceKind, rot: int) -> Seq<(i32, i32)>
    recommends
        0 <= rot < spec_rotation_count(kind),
{
    match kind {
        PieceKind::I => {
            if rot == 1 {
                seq![(2i32, 0i32), (2i32, 1i32), (2i32, 2i32), (2i32, 3i32)]
            } else {
                seq![(0i32, 0i32), (1i32, 0i32), (2i32, 0i32), (3i32, 0i32)]
            }
        },
        PieceKind::O => seq![(1i32, 0i32), (2i32, 0i32), (1i32, 1i32), (2i32, 1i32)],
        PieceKind::T => {
            if rot == 1 {
                seq![(1i32, 0i32), (1i32, 1i32), (2i32, 1i32), (1i32, 2i32)]
            } else if rot == 2 {
                seq![(0i32, 1i32), (1i32, 1i32), (2i32, 1i32), (1i32, 2i32)]
            } else if rot == 3 {
                seq![(1i32, 0i32), (0i32, 1i32), (1i32, 1i32), (1i32, 2i32)]
            } else {
                seq![(1i32, 0i32), (0i32, 1i32), (1i32, 1i32), (2i32, 1i32)]
            }
        },
        PieceKind::S => {
            if rot == 1 {
                seq![(1i32, 0i32), (1i32, 1i32), (2i32, 1i32), (2i32, 2i32)]
            } else {
                seq![(1i32, 0i32), (2i32, 0i32), (0i32, 1i32), (1i32, 1i32)]
            }
        },
        PieceKind::Z => {
            if rot == 1 {
                seq![(2i32, 0i32), (1i32, 1i32), (2i32, 1i32), (1i32, 2i32)]
            } else {
                seq![(0i32, 0i32), (1i32, 0i32), (1i32, 1i32), (2i32, 1i32)]
            }
        },
        PieceKind::J => {
            if rot == 1 {
                seq![(1i32, 0i32), (2i32, 0i32), (1i32, 1i32), (1i32, 2i32)]
            } else if rot == 2 {
                seq![(0i32, 1i32), (1i32, 1i32), (2i32, 1i32), (2i32, 2i32)]
            } else if rot == 3 {
                seq![(1i32, 0i32), (1i32, 1i32), (0i32, 2i32), (1i32, 2i32)]
            } else {
                seq![(0i32, 0i32), (0i32, 1i32), (1i32, 1i32), (2i32, 1i32)]
            }
        },
        PieceKind::L => {
            if rot == 1 {
                seq![(1i32, 0i32), (1i32, 1i32), (1i32, 2i32), (2i32, 2i32)]
            } else if rot == 2 {
                seq![(0i32, 1i32), (1i32, 1i32), (2i32, 1i32), (0i32, 2i32)]
            } else if rot == 3 {
                seq![(0i32, 0i32), (1i32, 0i32), (1i32, 1i32), (1i32, 2i32)]
            } else {
                seq![(2i32, 0i32), (0i32, 1i32), (1i32, 1i32), (2i32, 1i32)]
            }
        },
    }
}

/// Every rotation state of every kind holds exactly four offsets, each
/// within the 4 x 4 anchor box.
pub proof fn lemma_shape_offsets_wf(kind: PieceKind, rot: int)
    ensures
        spec_shape_offsets(kind, rot).len() == 4,
        forall|i: int| 0 <= i < 4 ==> {
            let o = #[trigger] spec_shape_offsets(kind, rot)[i];
            0 <= o.0 <= 3 && 0 <= o.1 <= 3
        },
{
}

/// The four offsets of rotation state `rot` of `kind`, from the catalog.
pub fn shape_offsets(kind: PieceKind, rot: u8) -> (offs: Vec<(i32, i32)>)
    requires
        rot < spec_rotation_count(kind),
    ensures
        offs@ == spec_shape_offsets(kind, rot as int),
        offs@.len() == 4,
{
    let offs: Vec<(i32, i32)> = match kind {
        PieceKind::I => {
            if rot == 1 {
                vec![(2, 0), (2, 1), (2, 2), (2, 3)]
            } else {
                vec![(0, 0), (1, 0), (2, 0), (3, 0)]
            }
        },
        PieceKind::O => vec![(1, 0), (2, 0), (1, 1), (2, 1)],
        PieceKind::T => {
            if rot == 1 {
                vec![(1, 0), (1, 1), (2, 1), (1, 2)]
            } else if rot == 2 {
                vec![(0, 1), (1, 1), (2, 1), (1, 2)]
            } else if rot == 3 {
                vec![(1, 0), (0, 1), (1, 1), (1, 2)]
            } else {
                vec![(1, 0), (0, 1), (1, 1), (2, 1)]
            }
        },
        PieceKind::S => {
            if rot == 1 {
                vec![(1, 0), (1, 1), (2, 1), (2, 2)]
            } else {
                vec![(1, 0), (2, 0), (0, 1), (1, 1)]
            }
        },
        PieceKind::Z => {
            if rot == 1 {
                vec![(2, 0), (1, 1), (2, 1), (1, 2)]
            } else {
                vec![(0, 0), (1, 0), (1, 1), (2, 1)]
            }
        },
        PieceKind::J => {
            if rot == 1 {
                vec![(1, 0), (2, 0), (1, 1), (1, 2)]
            } else if rot == 2 {
                vec![(0, 1), (1, 1), (2, 1), (2, 2)]
            } else if rot == 3 {
                vec![(1, 0), (1, 1), (0, 2), (1, 2)]
            } else {
                vec![(0, 0), (0, 1), (1, 1), (2, 1)]
            }
        },
        PieceKind::L => {
            if rot == 1 {
                vec![(1, 0), (1, 1), (1, 2), (2, 2)]
            } else if rot == 2 {
                vec![(0, 1), (1, 1), (2, 1), (0, 2)]
            } else if rot == 3 {
                vec![(0, 0), (1, 0), (1, 1), (1, 2)]
            } else {
                vec![(2, 0), (0, 1), (1, 1), (2, 1)]
            }
        },
    };
    proof {
        assert(offs@ =~= spec_shape_offsets(kind, rot as int));
    }
    offs
}

/// A live piece: its kind (fixed for its lifetime), current rotation
/// state index, and anchor cell `(col, row)` on the board. The anchor
/// may sit outside the board as long as all four cells are inside.
#[derive(Clone, Copy, Debug, PartialEq, Eq, Structural)]
pub struct Piece {
    pub kind: PieceKind,
    pub rot: u8,
    pub col: i32,
    pub row: i32,
}

impl Piece {
    /// The rotation index is valid for the kind, and the anchor is far
    /// enough from the integer limit that all four cells are computable.
    pub open spec fn wf(self) -> bool {
        &&& self.rot < spec_rotation_count(self.kind)
        &&& self.col <= i32::MAX - 3
        &&& self.row <= i32::MAX - 3
    }

    /// The four absolute cells covered by the piece: anchor + offsets.
    pub open spec fn spec_cells(self) -> Seq<(int, int)> {
        spec_shape_offsets(self.kind, self.rot as int).map_values(
            |o: (i32, i32)| (self.col + o.0, self.row + o.1),
        )
    }

    /// Whether the piece covers the cell `(col, row)`.
    pub open spec fn covers(self, col: int, row: int) -> bool {
        self.spec_cells().contains((col, row))
    }

    /// The same piece with its anchor row replaced.
    pub open spec fn with_row(self, row: int) -> Piece {
        Piece { row: row as i32, ..self }
    }

    /// A new piece at rotation state 0.
    pub fn new(kind: PieceKind, col: i32, row: i32) -> (p: Piece)
        ensures
            p == (Piece { kind, rot: 0u8, col, row }),
    {
        Piece { kind, rot: 0, col, row }
    }

    /// The four absolute cells of the piece, in catalog order.
    pub fn cells(&self) -> (cs: Vec<(i32, i32)>)
        requires
            self.wf(),
        ensures
            cs@.len() == 4,
            forall|i: int| 0 <= i < 4 ==> {
                let c = #[trigger] cs@[i];
                c.0 == self.spec_cells()[i].0 && c.1 == self.spec_cells()[i].1
            },
    {
        proof {
            lemma_shape_offsets_wf(self.kind, self.rot as int);
        }
        let offs = shape_offsets(self.kind, self.rot);
        let mut cs: Vec<(i32, i32)> = Vec::new();
        let mut i: usize = 0;
        while i < 4
            invariant
                self.wf(),
                offs@ == spec_shape_offsets(self.kind, self.rot as int),
                offs@.len() == 4,
                forall|j: int| 0 <= j < 4 ==> {
                    let o = #[trigger] offs@[j];
                    0 <= o.0 <= 3 && 0 <= o.1 <= 3
                },
                i <= 4,
                cs@.len() == i,
                forall|j: int| 0 <= j < i ==> {
                    let c = #[trigger] cs@[j];
                    c.0 == self.spec_cells()[j].0 && c.1 == self.spec_cells()[j].1
                },
            decreases 4 - i,
        {
            let o = offs[i];
            cs.push((self.col + o.0, self.row + o.1));
            i = i + 1;
        }
        cs
    }

    /// A candidate piece with the anchor shifted by `(dx, dy)`; the
    /// receiver is not changed. Validate the candidate with `fits`
    /// before committing it.
    pub fn moved(&self, dx: i32, dy: i32) -> (q: Piece)
        requires
            i32::MIN <= self.col + dx <= i32::MAX,
            i32::MIN <= self.row + dy <= i32::MAX,
        ensures
            q.kind == self.kind,
            q.rot == self.rot,
            q.col == self.col + dx,
            q.row == self.row + dy,
    {
        Piece { col: self.col + dx, row: self.row + dy, ..*self }
    }

    /// The same piece advanced one rotation state, cyclically.
    pub open spec fn spec_rotated_cw(self) -> Piece {
        Piece { rot: ((self.rot as int + 1) % spec_rotation_count(self.kind)) as u8, ..self }
    }

    /// The piece after `n` clockwise rotations.
    pub open spec fn rotated_n(self, n: nat) -> Piece
        decreases n,
    {
        if n == 0 {
            self
        } else {
            self.spec_rotated_cw().rotated_n((n - 1) as nat)
        }
    }

    /// A candidate piece with the rotation index advanced by one,
    /// modulo the kind's rotation count; the anchor is unchanged.
    pub fn rotated_cw(&self) -> (q: Piece)
        requires
            self.rot < spec_rotation_count(self.kind),
        ensures
            q == self.spec_rotated_cw(),
            q.kind == self.kind,
            q.col == self.col,
            q.row == self.row,
            q.rot < spec_rotation_count(self.kind),
    {
        let n = rotation_count(self.kind);
        Piece { rot: (self.rot + 1) % n, ..*self }
    }

    /// A candidate piece with the rotation index retreated by one,
    /// modulo the kind's rotation count; the anchor is unchanged.
    pub fn rotated_ccw(&self) -> (q: Piece)
        requires
            self.rot < spec_rotation_count(self.kind),
        ensures
            q.kind == self.kind,
            q.col == self.col,
            q.row == self.row,
            q.rot as int == (self.rot as int + spec_rotation_count(self.kind) - 1)
                % spec_rotation_count(self.kind),
            q.rot < spec_rotation_count(self.kind),
    {
        let n = rotation_count(self.kind);
        Piece { rot: (self.rot + n - 1) % n, ..*self }
    }
}

/// Helper for the cyclic law: a four-state piece returns to its
/// original state after four rotations.
proof fn lemma_rotated_four(p: Piece)
    requires
        p.rot < 4,
        spec_rotation_count(p.kind) == 4,
    ensures
        p.rotated_n(4) == p,
{
    reveal_with_fuel(Piece::rotated_n, 5);
    let q1 = p.spec_rotated_cw();
    let q2 = q1.spec_rotated_cw();
    let q3 = q2.spec_rotated_cw();
    let q4 = q3.spec_rotated_cw();
    assert(p.rotated_n(4) == q4);
    assert(q1.rot as int == (p.rot as int + 1) % 4);
    assert(q2.rot as int == (q1.rot as int + 1) % 4);
    assert(q3.rot as int == (q2.rot as int + 1) % 4);
    assert(q4.rot as int == (q3.rot as int + 1) % 4);
    if p.rot == 0 {
        assert(q1.rot == 1 && q2.rot == 2 && q3.rot == 3 && q4.rot == 0);
    } else if p.rot == 1 {
        assert(q1.rot == 2 && q2.rot == 3 && q3.rot == 0 && q4.rot == 1);
    } else if p.rot == 2 {
        assert(q1.rot == 3 && q2.rot == 0 && q3.rot == 1 && q4.rot == 2);
    } else {
        assert(q1.rot == 0 && q2.rot == 1 && q3.rot == 2 && q4.rot == 3);
    }
    assert(q4 == p);
}

/// Rotation states are cyclic: advancing a piece through as many
/// rotations as its kind has states returns it to its original state.
pub proof fn lemma_rotation_cyclic(p: Piece)
    requires
        p.rot < spec_rotation_count(p.kind),
    ensures
        p.rotated_n(spec_rotation_count(p.kind) as nat) == p,
{
    let n = spec_rotation_count(p.kind);
    if n == 1 {
        reveal_with_fuel(Piece::rotated_n, 3);
        assert(p.rotated_n(1) == p);
    } else if n == 2 {
        reveal_with_fuel(Piece::rotated_n, 3);
        let q1 = p.spec_rotated_cw();
        let q2 = q1.spec_rotated_cw();
        assert(p.rotated_n(2) == q2);
        assert(q1.rot as int == (p.rot as int + 1) % 2);
        assert(q2.rot as int == (q1.rot as int + 1) % 2);
        assert(q2 == p);
    } else {
        lemma_rotated_four(p);
        assert(n as nat == 4);
    }
}

} // verus!
