//! Random piece selection.
//!
//! The engine's only source of randomness: the kind of each newly
//! spawned piece is drawn uniformly, through the `rand` crate. The
//! state machine is verified for every kind the draw can hand back.

use vstd::prelude::*;

use crate::piece::PieceKind;

verus! {

/// Relies on `rand::Rng::gen_range` over `rand::thread_rng`: returns a
/// value uniformly sampled from the half-open range `lo..hi`. The call
/// panics only on an empty range, which the precondition rules out.
#[verifier::external_body]
fn sample_index(lo: u32, hi: u32) -> (n: u32)
    requires
        lo < hi,
    ensures
        lo <= n < hi,
{
    rand::Rng::gen_range(&mut rand::thread_rng(), lo..hi)
}

/// The kind numbered `n`, in catalog order.
pub open spec fn spec_kind_from_index(n: int) -> PieceKind {
    if n == 0 {
        PieceKind::I
    } else if n == 1 {
        PieceKind::O
    } else if n == 2 {
        PieceKind::T
    } else if n == 3 {
        PieceKind::S
    } else if n == 4 {
        PieceKind::Z
    } else if n == 5 {
        PieceKind::J
    } else {
        PieceKind::L
    }
}

/// The kind numbered `n`, in catalog order.
pub fn kind_from_index(n: u32) -> (kind: PieceKind)
    requires
        n < 7,
    ensures
        kind == spec_kind_from_index(n as int),
{
    if n == 0 {
        PieceKind::I
    } else if n == 1 {
        PieceKind::O
    } else if n == 2 {
        PieceKind::T
    } else if n == 3 {
        PieceKind::S
    } else if n == 4 {
        PieceKind::Z
    } else if n == 5 {
        PieceKind::J
    } else {
        PieceKind::L
    }
}

/// A uniformly random kind for the next piece. Which kind comes back
/// is not specified: every caller is verified for all seven.
pub fn pick_kind() -> PieceKind {
    let n = sample_index(0, 7);
    kind_from_index(n)
}

} // verus!
