use tetris_core::piece::Piece;
use tetris_core::piece::PieceKind;
use tetris_core::piece::rotation_count;
use tetris_core::piece::shape_offsets;
use tetris_core::random::kind_from_index;

const ALL_KINDS: [PieceKind; 7] = [
    PieceKind::I,
    PieceKind::O,
    PieceKind::T,
    PieceKind::S,
    PieceKind::Z,
    PieceKind::J,
    PieceKind::L,
];

#[test]
fn rotation_counts() {
    assert_eq!(rotation_count(PieceKind::O), 1);
    assert_eq!(rotation_count(PieceKind::I), 2);
    assert_eq!(rotation_count(PieceKind::S), 2);
    assert_eq!(rotation_count(PieceKind::Z), 2);
    assert_eq!(rotation_count(PieceKind::T), 4);
    assert_eq!(rotation_count(PieceKind::J), 4);
    assert_eq!(rotation_count(PieceKind::L), 4);
}

#[test]
fn every_rotation_state_has_four_offsets_in_box() {
    for kind in ALL_KINDS {
        for rot in 0..rotation_count(kind) {
            let offs = shape_offsets(kind, rot);
            assert_eq!(offs.len(), 4);
            for (dc, dr) in offs {
                assert!((0..4).contains(&dc));
                assert!((0..4).contains(&dr));
            }
        }
    }
}

#[test]
fn rotating_through_all_states_returns_to_start() {
    for kind in ALL_KINDS {
        let p = Piece::new(kind, 3, 5);
        let mut q = p;
        for _ in 0..rotation_count(kind) {
            q = q.rotated_cw();
        }
        assert_eq!(q, p);
    }
}

#[test]
fn rotate_ccw_is_inverse_of_cw() {
    for kind in ALL_KINDS {
        let p = Piece::new(kind, 3, 5);
        assert_eq!(p.rotated_cw().rotated_ccw(), p);
        assert_eq!(p.rotated_ccw().rotated_cw(), p);
    }
}

#[test]
fn i_piece_cells_at_spawn() {
    let p = Piece::new(PieceKind::I, 3, 0);
    let cells = p.cells();
    assert_eq!(cells, vec![(3, 0), (4, 0), (5, 0), (6, 0)]);
}

#[test]
fn o_piece_cells() {
    let p = Piece::new(PieceKind::O, 3, 18);
    let cells = p.cells();
    assert_eq!(cells, vec![(4, 18), (5, 18), (4, 19), (5, 19)]);
}

#[test]
fn moved_shifts_anchor_without_mutating() {
    let p = Piece::new(PieceKind::T, 4, 7);
    let q = p.moved(-1, 2);
    assert_eq!((q.col, q.row), (3, 9));
    assert_eq!((p.col, p.row), (4, 7));
    assert_eq!(q.kind, p.kind);
    assert_eq!(q.rot, p.rot);
}

#[test]
fn kind_index_mapping() {
    assert_eq!(kind_from_index(0), PieceKind::I);
    assert_eq!(kind_from_index(1), PieceKind::O);
    assert_eq!(kind_from_index(2), PieceKind::T);
    assert_eq!(kind_from_index(3), PieceKind::S);
    assert_eq!(kind_from_index(4), PieceKind::Z);
    assert_eq!(kind_from_index(5), PieceKind::J);
    assert_eq!(kind_from_index(6), PieceKind::L);
}
