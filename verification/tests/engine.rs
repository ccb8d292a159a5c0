use tetris_core::game::Command;
use tetris_core::game::GameState;
use tetris_core::game::score_for;
use tetris_core::grid::Grid;
use tetris_core::piece::Piece;
use tetris_core::piece::PieceKind;
use tetris_core::rules::fits;

fn active(s: &GameState) -> Piece {
    s.active.expect("an active piece")
}

#[test]
fn fits_false_outside_left_wall() {
    let g = Grid::new(10, 20);
    let p = Piece::new(PieceKind::I, -1, 0);
    assert!(!fits(&g, &p));
}

#[test]
fn fits_false_outside_right_wall() {
    let g = Grid::new(10, 20);
    let p = Piece::new(PieceKind::I, 7, 0);
    assert!(!fits(&g, &p));
    let q = Piece::new(PieceKind::I, 6, 0);
    assert!(fits(&g, &q));
}

#[test]
fn fits_false_below_floor() {
    let g = Grid::new(10, 20);
    let p = Piece::new(PieceKind::T, 3, 19);
    assert!(!fits(&g, &p));
    let q = Piece::new(PieceKind::T, 3, 17);
    assert!(fits(&g, &q));
}

#[test]
fn fits_false_over_occupied_cell() {
    let mut g = Grid::new(10, 20);
    g.cells[0][4] = Some(PieceKind::L);
    let p = Piece::new(PieceKind::I, 3, 0);
    assert!(!fits(&g, &p));
}

#[test]
fn lock_marks_exactly_the_four_cells() {
    let mut g = Grid::new(10, 20);
    let p = Piece::new(PieceKind::O, 3, 18);
    assert!(fits(&g, &p));
    g.lock(&p);
    for r in 0..20usize {
        for c in 0..10usize {
            let expect_occupied = (r == 18 || r == 19) && (c == 4 || c == 5);
            if expect_occupied {
                assert_eq!(g.cells[r][c], Some(PieceKind::O));
            } else {
                assert_eq!(g.cells[r][c], None);
            }
        }
    }
}

#[test]
fn lock_keeps_previously_occupied_cells() {
    let mut g = Grid::new(10, 20);
    g.cells[19][0] = Some(PieceKind::J);
    let p = Piece::new(PieceKind::O, 3, 18);
    g.lock(&p);
    assert_eq!(g.cells[19][0], Some(PieceKind::J));
    assert_eq!(g.cells[19][4], Some(PieceKind::O));
}

#[test]
fn clear_with_no_full_rows_changes_nothing() {
    let mut g = Grid::new(10, 20);
    g.cells[19][0] = Some(PieceKind::I);
    g.cells[18][9] = Some(PieceKind::T);
    let before = g.cells.clone();
    let n = g.clear_full_rows();
    assert_eq!(n, 0);
    assert_eq!(g.cells, before);
}

#[test]
fn clear_with_all_rows_full_empties_the_grid() {
    let mut g = Grid::new(4, 2);
    let left = Piece::new(PieceKind::O, -1, 0);
    let right = Piece::new(PieceKind::O, 1, 0);
    assert!(fits(&g, &left));
    g.lock(&left);
    assert!(fits(&g, &right));
    g.lock(&right);
    assert!(g.is_row_full(0));
    assert!(g.is_row_full(1));
    let n = g.clear_full_rows();
    assert_eq!(n, 2);
    for r in 0..2usize {
        for c in 0..4usize {
            assert_eq!(g.cells[r][c], None);
        }
    }
}

#[test]
fn o_piece_completes_row_nineteen() {
    let mut g = Grid::new(10, 20);
    for c in 0..10usize {
        if c != 4 && c != 5 {
            g.cells[19][c] = Some(PieceKind::I);
        }
    }
    let p = Piece::new(PieceKind::O, 3, 18);
    assert!(fits(&g, &p));
    g.lock(&p);
    assert!(g.is_row_full(19));
    let n = g.clear_full_rows();
    assert_eq!(n, 1);
    // Row 18's two O cells shifted down into row 19.
    for c in 0..10usize {
        let expect = if c == 4 || c == 5 { Some(PieceKind::O) } else { None };
        assert_eq!(g.cells[19][c], expect);
        assert_eq!(g.cells[0][c], None);
    }
    assert!(!g.is_row_full(19));
}

#[test]
fn spawned_i_piece_and_left_wall() {
    let mut s = GameState::new(10, 20);
    // A waiting board spawns the given kind; the command is consumed.
    s.step(Command::MoveLeft, PieceKind::I);
    let p = active(&s);
    assert_eq!((p.kind, p.rot, p.col, p.row), (PieceKind::I, 0, 3, 0));
    assert_eq!(p.cells(), vec![(3, 0), (4, 0), (5, 0), (6, 0)]);
    for _ in 0..4 {
        s.step(Command::MoveLeft, PieceKind::I);
    }
    // The fourth move would push column 3 to -1 and is rejected.
    assert_eq!(active(&s).col, 0);
    assert!(!s.game_over);
}

#[test]
fn spawn_on_occupied_footprint_tops_out() {
    let mut s = GameState::new(10, 20);
    s.grid.cells[0][4] = Some(PieceKind::I);
    s.step(Command::SoftDropTick, PieceKind::O);
    assert!(s.game_over);
    assert!(s.active.is_none());
    // A finished game ignores further commands.
    s.step(Command::MoveLeft, PieceKind::T);
    assert!(s.game_over);
    assert!(s.active.is_none());
}

#[test]
fn hard_drop_locks_at_the_bottom() {
    let mut s = GameState::new(10, 20);
    s.step(Command::SoftDropTick, PieceKind::O);
    assert_eq!(active(&s).kind, PieceKind::O);
    s.step(Command::HardDrop, PieceKind::I);
    // The O piece fell all the way: its lowest locked row is row 19.
    assert_eq!(s.grid.cells[18][4], Some(PieceKind::O));
    assert_eq!(s.grid.cells[18][5], Some(PieceKind::O));
    assert_eq!(s.grid.cells[19][4], Some(PieceKind::O));
    assert_eq!(s.grid.cells[19][5], Some(PieceKind::O));
    for r in 0..18usize {
        for c in 0..10usize {
            assert_eq!(s.grid.cells[r][c], None);
        }
    }
    // The next piece spawned immediately.
    assert_eq!(active(&s).kind, PieceKind::I);
    assert_eq!(s.score, 0);
}

#[test]
fn soft_drop_on_the_floor_locks_and_respawns() {
    let mut s = GameState::new(10, 20);
    s.step(Command::SoftDropTick, PieceKind::O);
    // Walk the piece down to the floor one row at a time.
    for _ in 0..18 {
        s.step(Command::SoftDropTick, PieceKind::T);
        assert_eq!(active(&s).kind, PieceKind::O);
    }
    assert_eq!(active(&s).row, 18);
    // One more falling step cannot fit: the piece locks, a T spawns.
    s.step(Command::SoftDropTick, PieceKind::T);
    assert_eq!(active(&s).kind, PieceKind::T);
    assert_eq!(s.grid.cells[19][4], Some(PieceKind::O));
}

#[test]
fn rotation_into_the_floor_is_rejected() {
    let mut s = GameState::new(10, 20);
    s.active = Some(Piece::new(PieceKind::I, 3, 19));
    s.step(Command::Rotate, PieceKind::T);
    let p = active(&s);
    assert_eq!(p.rot, 0);
    assert_eq!((p.col, p.row), (3, 19));
}

#[test]
fn rotation_in_the_open_advances_the_state() {
    let mut s = GameState::new(10, 20);
    s.active = Some(Piece::new(PieceKind::T, 3, 5));
    s.step(Command::Rotate, PieceKind::T);
    assert_eq!(active(&s).rot, 1);
}

#[test]
fn clearing_two_rows_at_once_scores_three_hundred() {
    let mut s = GameState::new(10, 20);
    for r in [18usize, 19usize] {
        for c in 0..10usize {
            if c != 4 && c != 5 {
                s.grid.cells[r][c] = Some(PieceKind::I);
            }
        }
    }
    s.step(Command::SoftDropTick, PieceKind::O);
    s.step(Command::HardDrop, PieceKind::T);
    assert_eq!(s.score, 300);
    // Both rows vanished; what remains is empty.
    for c in 0..10usize {
        assert_eq!(s.grid.cells[18][c], None);
        assert_eq!(s.grid.cells[19][c], None);
    }
}

#[test]
fn score_table_values() {
    assert_eq!(score_for(0), 0);
    assert_eq!(score_for(1), 100);
    assert_eq!(score_for(2), 300);
    assert_eq!(score_for(3), 500);
    assert_eq!(score_for(4), 800);
    assert_eq!(score_for(5), 1000);
}

#[test]
fn gravity_accumulates_then_drops() {
    let mut s = GameState::new(10, 20);
    s.tick_with(16, PieceKind::O);
    // The first tick found a waiting board: it spawned and reset.
    assert_eq!(active(&s).row, 0);
    assert_eq!(s.gravity_ms, 0);
    s.tick_with(100, PieceKind::T);
    assert_eq!(active(&s).row, 0);
    assert_eq!(s.gravity_ms, 100);
    s.tick_with(300, PieceKind::T);
    assert_eq!(active(&s).row, 1);
    assert_eq!(s.gravity_ms, 0);
}

#[test]
fn restart_resets_everything() {
    let mut s = GameState::new(10, 20);
    s.grid.cells[0][4] = Some(PieceKind::I);
    s.step(Command::SoftDropTick, PieceKind::O);
    assert!(s.game_over);
    s.restart();
    assert!(!s.game_over);
    assert!(s.active.is_none());
    assert_eq!(s.score, 0);
    for r in 0..20usize {
        for c in 0..10usize {
            assert_eq!(s.grid.cells[r][c], None);
        }
    }
    // The machine plays again after a restart.
    s.step(Command::SoftDropTick, PieceKind::L);
    assert_eq!(active(&s).kind, PieceKind::L);
}

#[test]
fn snapshot_copies_the_visible_state() {
    let mut s = GameState::new(10, 20);
    s.grid.cells[19][0] = Some(PieceKind::Z);
    s.step(Command::SoftDropTick, PieceKind::J);
    let snap = s.snapshot();
    assert_eq!((snap.width, snap.height), (10, 20));
    assert_eq!(snap.cells[19][0], Some(PieceKind::Z));
    assert_eq!(snap.cells[0][0], None);
    assert_eq!(snap.active, s.active);
    assert_eq!(snap.score, 0);
    assert!(!snap.game_over);
}

#[test]
fn random_spawn_produces_a_fitting_piece() {
    let mut s = GameState::new(10, 20);
    s.apply_command(Command::SoftDropTick);
    let p = active(&s);
    assert_eq!((p.col, p.row, p.rot), (3, 0, 0));
    assert!(!s.game_over);
    let mut t = GameState::new(10, 20);
    t.tick(5);
    assert!(t.active.is_some());
}

#[test]
fn grid_queries() {
    let mut g = Grid::new(10, 20);
    assert!(g.is_inside(0, 0));
    assert!(g.is_inside(9, 19));
    assert!(!g.is_inside(-1, 0));
    assert!(!g.is_inside(10, 0));
    assert!(!g.is_inside(0, 20));
    g.cells[7][3] = Some(PieceKind::S);
    assert!(g.is_occupied(3, 7));
    assert!(!g.is_occupied(4, 7));
    assert_eq!(g.cell(3, 7), Some(PieceKind::S));
    assert_eq!(g.cell(4, 7), None);
}
