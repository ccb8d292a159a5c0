//! The board of locked cells.
//!
//! A `Grid` has fixed dimensions chosen at construction. Each cell is
//! either empty (`None`) or occupied by the kind of the piece that was
//! locked into it (`Some(kind)`). The grid is mutated only by locking a
//! piece's four cells in and by clearing full rows; clearing keeps the
//! non-full rows in order and refills the top with empty rows.

use vstd::prelude::*;

use crate::piece::Piece;
use crate::piece::PieceKind;

verus! {

/// The mathematical contents of a stack of rows: each row as a sequence
/// of cells.
pub open spec fn cells_view(cells: Seq<Vec<Option<PieceKind>>>) -> Seq<Seq<Option<PieceKind>>> {
    cells.map_values(|row: Vec<Option<PieceKind>>| row@)
}

/// An empty row of `width` cells.
pub open spec fn empty_row(width: int) -> Seq<Option<PieceKind>> {
    Seq::new(width as nat, |c: int| None::<PieceKind>)
}

/// Whether every cell of the row is occupied.
pub open spec fn spec_row_full(row: Seq<Option<PieceKind>>) -> bool {
    forall|c: int| 0 <= c < row.len() ==> row[c] is Some
}

/// The grid contents after locking piece `p`: the four cells covered by
/// `p` hold its kind, every other cell is unchanged.
pub open spec fn view_lock(v: Seq<Seq<Option<PieceKind>>>, p: Piece) -> Seq<
    Seq<Option<PieceKind>>,
> {
    Seq::new(
        v.len(),
        |r: int| Seq::new(v[r].len(), |c: int| if p.covers(c, r) {
            Some(p.kind)
        } else {
            v[r][c]
        }),
    )
}

/// The rows of `v` that are not full, in their original order.
pub open spec fn kept_rows(v: Seq<Seq<Option<PieceKind>>>) -> Seq<Seq<Option<PieceKind>>> {
    v.filter(|row: Seq<Option<PieceKind>>| !spec_row_full(row))
}

/// How many rows of `v` are full.
pub open spec fn cleared_count(v: Seq<Seq<Option<PieceKind>>>) -> int {
    v.len() - kept_rows(v).len()
}

/// The grid contents after clearing: as many fresh empty rows on top as
/// rows were full, then the non-full rows in order.
pub open spec fn view_clear(v: Seq<Seq<Option<PieceKind>>>, width: int) -> Seq<
    Seq<Option<PieceKind>>,
> {
    Seq::new(cleared_count(v) as nat, |r: int| empty_row(width)) + kept_rows(v)
}

/// A stack of no rows keeps no rows.
pub proof fn lemma_kept_rows_of_empty(v: Seq<Seq<Option<PieceKind>>>)
    requires
        v.len() == 0,
    ensures
        kept_rows(v).len() == 0,
{
    reveal(Seq::filter);
}

/// Appending a row keeps it exactly when it is not full.
pub proof fn lemma_kept_rows_push(v: Seq<Seq<Option<PieceKind>>>, row: Seq<Option<PieceKind>>)
    ensures
        kept_rows(v.push(row)) == if spec_row_full(row) {
            kept_rows(v)
        } else {
            kept_rows(v).push(row)
        },
{
    reveal(Seq::filter);
    let w = v.push(row);
    assert(w.drop_last() =~= v);
    assert(w.last() == row);
}

/// A stack whose rows are all non-full is kept whole by clearing.
proof fn lemma_kept_rows_all_kept(v: Seq<Seq<Option<PieceKind>>>)
    requires
        forall|r: int| 0 <= r < v.len() ==> !spec_row_full(#[trigger] v[r]),
    ensures
        kept_rows(v) == v,
    decreases v.len(),
{
    reveal(Seq::filter);
    if v.len() == 0 {
        assert(kept_rows(v) =~= v);
    } else {
        lemma_kept_rows_all_kept(v.drop_last());
        assert(v.drop_last().push(v.last()) =~= v);
        lemma_kept_rows_push(v.drop_last(), v.last());
        assert(kept_rows(v) =~= v);
    }
}

/// A stack whose rows are all full keeps none of them.
proof fn lemma_kept_rows_none_kept(v: Seq<Seq<Option<PieceKind>>>)
    requires
        forall|r: int| 0 <= r < v.len() ==> spec_row_full(#[trigger] v[r]),
    ensures
        kept_rows(v).len() == 0,
    decreases v.len(),
{
    reveal(Seq::filter);
    if v.len() > 0 {
        lemma_kept_rows_none_kept(v.drop_last());
        assert(v.drop_last().push(v.last()) =~= v);
        lemma_kept_rows_push(v.drop_last(), v.last());
    }
}

/// Clearing a board with no full rows removes nothing: the count is
/// zero and the contents come back unchanged.
pub proof fn lemma_clear_no_full_rows(v: Seq<Seq<Option<PieceKind>>>, width: int)
    requires
        forall|r: int| 0 <= r < v.len() ==> !spec_row_full(#[trigger] v[r]),
    ensures
        cleared_count(v) == 0,
        view_clear(v, width) == v,
{
    lemma_kept_rows_all_kept(v);
    assert(view_clear(v, width) =~= v);
}

/// Clearing a board whose rows are all full empties it: the count
/// equals the row count and every resulting row is empty.
pub proof fn lemma_clear_all_full(v: Seq<Seq<Option<PieceKind>>>, width: int)
    requires
        forall|r: int| 0 <= r < v.len() ==> spec_row_full(#[trigger] v[r]),
    ensures
        cleared_count(v) == v.len(),
        view_clear(v, width) == Seq::new(v.len(), |r: int| empty_row(width)),
    decreases v.len(),
{
    lemma_kept_rows_none_kept(v);
    assert(view_clear(v, width) =~= Seq::new(v.len(), |r: int| empty_row(width)));
}

/// Locking shows the piece's four cells as occupied by its kind and
/// leaves every other cell, occupied or not, exactly as it was.
pub proof fn lemma_lock_cell(v: Seq<Seq<Option<PieceKind>>>, p: Piece, col: int, row: int)
    requires
        0 <= row < v.len(),
        0 <= col < v[row].len(),
    ensures
        p.covers(col, row) ==> view_lock(v, p)[row][col] == Some(p.kind),
        !p.covers(col, row) ==> view_lock(v, p)[row][col] == v[row][col],
{
}

/// The board: a fixed-size matrix of cells, indexed by row then column,
/// row 0 at the top.
pub struct Grid {
    pub width: i32,
    pub height: i32,
    pub cells: Vec<Vec<Option<PieceKind>>>,
}

impl View for Grid {
    type V = Seq<Seq<Option<PieceKind>>>;

    open spec fn view(&self) -> Seq<Seq<Option<PieceKind>>> {
        cells_view(self.cells@)
    }
}

impl Grid {
    /// Positive dimensions small enough for the cells to be allocated
    /// and addressed, and exactly `height` rows of `width` cells.
    pub open spec fn wf(self) -> bool {
        &&& 1 <= self.width <= 0x4000_0000
        &&& 1 <= self.height <= 0x4000_0000
        &&& self@.len() == self.height
        &&& forall|r: int| 0 <= r < self.height ==> (#[trigger] self@[r]).len() == self.width
    }

    /// Whether `(col, row)` lies on the board.
    pub open spec fn in_bounds(self, col: int, row: int) -> bool {
        0 <= col < self.width && 0 <= row < self.height
    }

    /// The cell at `(col, row)`.
    pub open spec fn spec_cell(self, col: int, row: int) -> Option<PieceKind>
        recommends
            self.in_bounds(col, row),
    {
        self@[row][col]
    }

    /// A fresh grid of the given dimensions with every cell empty.
    pub fn new(width: i32, height: i32) -> (g: Grid)
        requires
            1 <= width <= 0x4000_0000,
            1 <= height <= 0x4000_0000,
        ensures
            g.wf(),
            g.width == width,
            g.height == height,
            g@.len() == height,
            forall|r: int| 0 <= r < height ==> #[trigger] g@[r] == empty_row(width as int),
    {
        let mut cells: Vec<Vec<Option<PieceKind>>> = Vec::new();
        let mut r: i32 = 0;
        while r < height
            invariant
                1 <= width,
                1 <= height,
                0 <= r <= height,
                cells@.len() == r,
                forall|j: int| 0 <= j < r ==> #[trigger] cells@[j]@ == empty_row(width as int),
            decreases height - r,
        {
            let row = empty_cells(width);
            cells.push(row);
            r = r + 1;
        }
        let g = Grid { width, height, cells };
        proof {
            assert(forall|j: int| 0 <= j < height ==> #[trigger] g@[j] == g.cells@[j]@);
        }
        g
    }

    /// Whether `(col, row)` lies on the board.
    pub fn is_inside(&self, col: i32, row: i32) -> (b: bool)
        ensures
            b == self.in_bounds(col as int, row as int),
    {
        0 <= col && col < self.width && 0 <= row && row < self.height
    }

    /// Whether the cell at `(col, row)` is occupied. Querying outside
    /// the board is a caller error, ruled out by the precondition.
    pub fn is_occupied(&self, col: i32, row: i32) -> (b: bool)
        requires
            self.wf(),
            self.in_bounds(col as int, row as int),
        ensures
            b == (self.spec_cell(col as int, row as int) is Some),
    {
        self.cells[row as usize][col as usize].is_some()
    }

    /// The cell at `(col, row)`: the kind locked there, or `None`.
    pub fn cell(&self, col: i32, row: i32) -> (cell: Option<PieceKind>)
        requires
            self.wf(),
            self.in_bounds(col as int, row as int),
        ensures
            cell == self.spec_cell(col as int, row as int),
    {
        self.cells[row as usize][col as usize]
    }

    /// Whether every cell of row `row` is occupied.
    pub fn is_row_full(&self, row: i32) -> (b: bool)
        requires
            self.wf(),
            0 <= row < self.height,
        ensures
            b == spec_row_full(self@[row as int]),
    {
        let w = self.width;
        let mut c: i32 = 0;
        while c < w
            invariant
                self.wf(),
                0 <= row < self.height,
                w == self.width,
                0 <= c <= w,
                forall|j: int| 0 <= j < c ==> self@[row as int][j] is Some,
            decreases w - c,
        {
            if self.cells[row as usize][c as usize].is_none() {
                return false;
            }
            c = c + 1;
        }
        true
    }

    /// Lock piece `p` into the grid: mark its four cells occupied with
    /// its kind. The piece must fit: all four cells inside the board and
    /// currently empty.
    pub fn lock(&mut self, p: &Piece)
        requires
            old(self).wf(),
            p.wf(),
            forall|i: int| 0 <= i < 4 ==> {
                let cell = #[trigger] p.spec_cells()[i];
                old(self).in_bounds(cell.0, cell.1) && old(self)@[cell.1][cell.0] is None
            },
        ensures
            final(self).wf(),
            final(self).width == old(self).width,
            final(self).height == old(self).height,
            final(self)@ == view_lock(old(self)@, *p),
    {
        let ghost v0 = self@;
        proof {
            crate::piece::lemma_shape_offsets_wf(p.kind, p.rot as int);
        }
        let cs = p.cells();
        let mut i: usize = 0;
        while i < 4
            invariant
                self.wf(),
                self.width == old(self).width,
                self.height == old(self).height,
                p.wf(),
                v0 == old(self)@,
                v0.len() == self.height,
                forall|r: int| 0 <= r < self.height ==> (#[trigger] v0[r]).len() == self.width,
                cs@.len() == 4,
                forall|j: int| 0 <= j < 4 ==> {
                    let cell = #[trigger] cs@[j];
                    cell.0 == p.spec_cells()[j].0 && cell.1 == p.spec_cells()[j].1
                },
                forall|j: int| 0 <= j < 4 ==> {
                    let cell = #[trigger] p.spec_cells()[j];
                    0 <= cell.0 < self.width && 0 <= cell.1 < self.height
                },
                i <= 4,
                forall|rr: int, cc: int|
                    0 <= rr < self.height && 0 <= cc < self.width ==> #[trigger] self@[rr][cc]
                        == if (exists|j: int|
                            0 <= j < i && #[trigger] p.spec_cells()[j] == ((cc, rr))) {
                            Some(p.kind)
                        } else {
                            v0[rr][cc]
                        },
            decreases 4 - i,
        {
            let (col, row) = cs[i];
            let ghost self1 = self@;
            proof {
                assert(p.spec_cells()[i as int].0 == col as int);
                assert(p.spec_cells()[i as int].1 == row as int);
                assert(0 <= col as int && (col as int) < self.width);
                assert(0 <= row as int && (row as int) < self.height);
                assert(self.cells@.len() == self@.len());
                assert(self.cells@[row as int]@ == self@[row as int]);
            }
            self.cells[row as usize][col as usize] = Some(p.kind);
            proof {
                assert(self@[row as int] =~= self1[row as int].update(col as int, Some(p.kind)));
                assert(forall|rr: int|
                    0 <= rr < self.height && rr != row as int ==> #[trigger] self@[rr]
                        == self1[rr]);
                assert forall|rr: int, cc: int|
                    0 <= rr < self.height && 0 <= cc < self.width implies #[trigger] self@[rr][cc]
                    == if (exists|j: int|
                        0 <= j < i + 1 && #[trigger] p.spec_cells()[j] == ((cc, rr))) {
                        Some(p.kind)
                    } else {
                        v0[rr][cc]
                    } by {
                    if cc == col as int && rr == row as int {
                        assert(p.spec_cells()[i as int] == ((cc, rr)));
                    } else {
                        assert(self@[rr][cc] == self1[rr][cc]);
                        assert(forall|j: int|
                            0 <= j < i + 1 && #[trigger] p.spec_cells()[j] == ((cc, rr)) ==> j < i);
                    }
                }
            }
            i = i + 1;
        }
        proof {
            assert forall|rr: int| 0 <= rr < v0.len() implies #[trigger] self@[rr] == view_lock(
                v0,
                *p,
            )[rr] by {
                assert forall|cc: int| 0 <= cc < v0[rr].len() implies self@[rr][cc] == view_lock(
                    v0,
                    *p,
                )[rr][cc] by {
                    if p.covers(cc, rr) {
                        assert(exists|j: int|
                            0 <= j < 4 && #[trigger] p.spec_cells()[j] == ((cc, rr)));
                    }
                }
                assert(self@[rr] =~= view_lock(v0, *p)[rr]);
            }
            assert(self@ =~= view_lock(v0, *p));
        }
    }

    /// Remove every full row, shift the rows above each down, and refill
    /// the top with empty rows; the count of removed rows is returned.
    /// Handles several, possibly non-contiguous, full rows in one pass.
    pub fn clear_full_rows(&mut self) -> (n: usize)
        requires
            old(self).wf(),
        ensures
            final(self).wf(),
            final(self).width == old(self).width,
            final(self).height == old(self).height,
            n as int == cleared_count(old(self)@),
            final(self)@ == view_clear(old(self)@, old(self).width as int),
    {
        let ghost v0 = self@;
        let h = self.height;
        let w = self.width;
        proof {
            lemma_kept_rows_of_empty(v0.subrange(0, 0));
        }
        // First pass: count the full rows.
        let mut full: usize = 0;
        let mut r: i32 = 0;
        while r < h
            invariant
                self.wf(),
                v0 == self@,
                h == self.height,
                w == self.width,
                0 <= r <= h,
                kept_rows(v0.subrange(0, r as int)).len() <= r,
                full as int == r - kept_rows(v0.subrange(0, r as int)).len(),
            decreases h - r,
        {
            let is_full = self.is_row_full(r);
            proof {
                assert(v0.subrange(0, r as int + 1) =~= v0.subrange(0, r as int).push(
                    v0[r as int],
                ));
                lemma_kept_rows_push(v0.subrange(0, r as int), v0[r as int]);
            }
            if is_full {
                full = full + 1;
            }
            r = r + 1;
        }
        proof {
            assert(v0.subrange(0, h as int) =~= v0);
            assert(full as int == cleared_count(v0));
        }
        // Second pass: build the new contents, empty rows first.
        let mut cells: Vec<Vec<Option<PieceKind>>> = Vec::new();
        let mut e: usize = 0;
        while e < full
            invariant
                1 <= w,
                e <= full,
                cells@.len() == e,
                forall|j: int| 0 <= j < e ==> #[trigger] cells@[j]@ == empty_row(w as int),
                forall|j: int| 0 <= j < e ==> (#[trigger] cells@[j]@).len() == w,
            decreases full - e,
        {
            let row = empty_cells(w);
            cells.push(row);
            e = e + 1;
        }
        // Then the non-full rows, in order.
        let mut r: i32 = 0;
        proof {
            lemma_kept_rows_of_empty(v0.subrange(0, 0));
        }
        while r < h
            invariant
                self.wf(),
                v0 == self@,
                h == self.height,
                w == self.width,
                full as int == cleared_count(v0),
                0 <= r <= h,
                kept_rows(v0.subrange(0, r as int)).len() <= r,
                cells@.len() == full + kept_rows(v0.subrange(0, r as int)).len(),
                forall|j: int| 0 <= j < full ==> #[trigger] cells@[j]@ == empty_row(w as int),
                forall|j: int|
                    full <= j < cells@.len() ==> #[trigger] cells@[j]@ == kept_rows(
                        v0.subrange(0, r as int),
                    )[j - full],
                forall|j: int| 0 <= j < cells@.len() ==> (#[trigger] cells@[j]@).len() == w,
            decreases h - r,
        {
            let is_full = self.is_row_full(r);
            if !is_full {
                let row = self.copy_row(r);
                cells.push(row);
            }
            proof {
                assert(v0.subrange(0, r as int + 1) =~= v0.subrange(0, r as int).push(
                    v0[r as int],
                ));
                lemma_kept_rows_push(v0.subrange(0, r as int), v0[r as int]);
            }
            r = r + 1;
        }
        proof {
            assert(v0.subrange(0, h as int) =~= v0);
        }
        self.cells = cells;
        proof {
            assert forall|j: int| 0 <= j < self@.len() implies #[trigger] self@[j] == view_clear(
                v0,
                w as int,
            )[j] by {
                assert(self@[j] == self.cells@[j]@);
            }
            assert(self@ =~= view_clear(v0, w as int));
        }
        full
    }

    /// A copy of row `row` of the grid, cell by cell.
    pub fn copy_row(&self, row: i32) -> (out: Vec<Option<PieceKind>>)
        requires
            self.wf(),
            0 <= row < self.height,
        ensures
            out@ == self@[row as int],
    {
        let w = self.width;
        let mut out: Vec<Option<PieceKind>> = Vec::new();
        let mut c: i32 = 0;
        while c < w
            invariant
                self.wf(),
                0 <= row < self.height,
                w == self.width,
                0 <= c <= w,
                out@.len() == c,
                forall|j: int| 0 <= j < c ==> #[trigger] out@[j] == self@[row as int][j],
            decreases w - c,
        {
            proof {
                assert(self.cells@.len() == self@.len());
                assert(self.cells@[row as int]@ == self@[row as int]);
            }
            let cell = self.cells[row as usize][c as usize];
            out.push(cell);
            c = c + 1;
        }
        proof {
            assert(out@ =~= self@[row as int]);
        }
        out
    }
}

/// A fresh all-empty row of `width` cells.
fn empty_cells(width: i32) -> (row: Vec<Option<PieceKind>>)
    requires
        1 <= width,
    ensures
        row@ == empty_row(width as int),
{
    let mut row: Vec<Option<PieceKind>> = Vec::new();
    let mut c: i32 = 0;
    while c < width
        invariant
            0 <= c <= width,
            row@.len() == c,
            forall|j: int| 0 <= j < c ==> #[trigger] row@[j] is None,
        decreases width - c,
    {
        row.push(None);
        c = c + 1;
    }
    proof {
        assert(row@ =~= empty_row(width as int));
    }
    row
}

} // verus!
