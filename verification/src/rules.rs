//! Collision and placement rules.
//!
//! One pure predicate, `fits`, is the sole gatekeeper for every change
//! of piece position or orientation: movement, rotation and gravity all
//! validate their candidate through it before committing.

use vstd::prelude::*;

use crate::grid::Grid;
use crate::piece::Piece;

verus! {

/// Whether every one of the piece's four cells lies on the board and
/// over an empty cell.
pub open spec fn spec_fits(g: Grid, p: Piece) -> bool {
    forall|i: int| 0 <= i < 4 ==> {
        let cell = #[trigger] p.spec_cells()[i];
        g.in_bounds(cell.0, cell.1) && g.spec_cell(cell.0, cell.1) is None
    }
}

/// True iff all four cells of `p` are inside the board and currently
/// empty.
pub fn fits(g: &Grid, p: &Piece) -> (b: bool)
    requires
        g.wf(),
        p.wf(),
    ensures
        b == spec_fits(*g, *p),
{
    let cs = p.cells();
    let mut i: usize = 0;
    while i < 4
        invariant
            g.wf(),
            p.wf(),
            cs@.len() == 4,
            forall|j: int| 0 <= j < 4 ==> {
                let c = #[trigger] cs@[j];
                c.0 == p.spec_cells()[j].0 && c.1 == p.spec_cells()[j].1
            },
            i <= 4,
            forall|j: int| 0 <= j < i ==> {
                let cell = #[trigger] p.spec_cells()[j];
                g.in_bounds(cell.0, cell.1) && g.spec_cell(cell.0, cell.1) is None
            },
        decreases 4 - i,
    {
        let (col, row) = cs[i];
        if !g.is_inside(col, row) {
            proof {
                assert(!g.in_bounds(p.spec_cells()[i as int].0, p.spec_cells()[i as int].1));
            }
            return false;
        }
        if g.is_occupied(col, row) {
            proof {
                assert(g.spec_cell(p.spec_cells()[i as int].0, p.spec_cells()[i as int].1)
                    is Some);
            }
            return false;
        }
        i = i + 1;
    }
    true
}

/// A piece with any of its four cells off the board never fits,
/// whatever the grid holds.
pub proof fn lemma_fits_needs_bounds(g: Grid, p: Piece, i: int)
    requires
        0 <= i < 4,
        !g.in_bounds(p.spec_cells()[i].0, p.spec_cells()[i].1),
    ensures
        !spec_fits(g, p),
{
    assert(!{
        let cell = p.spec_cells()[i];
        g.in_bounds(cell.0, cell.1) && g.spec_cell(cell.0, cell.1) is None
    });
}

/// A fitting piece's anchor lies within three cells of the board on
/// the low side and strictly inside it on the high side.
pub proof fn lemma_fits_anchor_bounds(g: Grid, p: Piece)
    requires
        g.wf(),
        p.wf(),
        spec_fits(g, p),
    ensures
        -3 <= p.col < g.width,
        -3 <= p.row < g.height,
{
    crate::piece::lemma_shape_offsets_wf(p.kind, p.rot as int);
    let offs = crate::piece::spec_shape_offsets(p.kind, p.rot as int);
    let c0 = p.spec_cells()[0];
    assert(g.in_bounds(c0.0, c0.1));
    assert(c0.0 == p.col + offs[0].0 && c0.1 == p.row + offs[0].1);
    assert(0 <= offs[0].0 <= 3 && 0 <= offs[0].1 <= 3);
}

} // verus!
