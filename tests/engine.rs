use tetrust::board::{Board, Cell, HEIGHT, WIDTH};
use tetrust::game::{Game, GameState, MenuAction, MenuKey, SPAWN_X};
use tetrust::tetromino::{Tetromino, TetrominoType};

fn playing(next: TetrominoType) -> Game {
    let mut g = Game::new_with(next);
    assert_eq!(g.handle_title_input(MenuKey::Enter), MenuAction::Stay);
    assert_eq!(g.get_state(), GameState::Playing);
    g
}

fn shift(g: &mut Game, dx: i32) {
    let step = if dx < 0 { -1 } else { 1 };
    for _ in 0..dx.abs() {
        assert!(g.move_piece(step, 0));
    }
}

fn filled_cells(b: &Board) -> Vec<(usize, usize)> {
    let mut v = Vec::new();
    for y in 0..HEIGHT {
        for x in 0..WIDTH {
            if b.get(x, y) == Cell::Filled {
                v.push((x, y));
            }
        }
    }
    v
}

fn is_empty_board(b: &Board) -> bool {
    filled_cells(b).is_empty()
}

#[test]
fn cell_glyphs() {
    assert_eq!(Cell::Empty.to_string(), "⬜");
    assert_eq!(Cell::Filled.to_string(), "⬛");
    assert_eq!(Cell::Preview.to_string(), "🟦");
}

#[test]
fn board_starts_empty_and_sets_cells() {
    let mut b = Board::new();
    assert!(is_empty_board(&b));
    b.set(9, 19, Cell::Filled);
    b.set(0, 0, Cell::Preview);
    assert_eq!(b.get(9, 19), Cell::Filled);
    assert_eq!(b.get(0, 0), Cell::Preview);
    assert_eq!(b.get(8, 19), Cell::Empty);
}

#[test]
fn clear_line_only_full_row() {
    let mut b = Board::new();
    for x in 0..WIDTH {
        b.set(x, 10, Cell::Filled);
    }
    b.set(2, 0, Cell::Filled);
    b.set(3, 9, Cell::Filled);
    b.set(4, 11, Cell::Filled);
    b.set(5, 19, Cell::Filled);
    b.clear_line(10);
    // rows below stay
    assert_eq!(b.get(4, 11), Cell::Filled);
    assert_eq!(b.get(5, 19), Cell::Filled);
    // rows above move down by one
    assert_eq!(b.get(3, 10), Cell::Filled);
    assert_eq!(b.get(2, 1), Cell::Filled);
    // the top row is empty
    for x in 0..WIDTH {
        assert_eq!(b.get(x, 0), Cell::Empty);
    }
    assert_eq!(filled_cells(&b), vec![(2, 1), (3, 10), (4, 11), (5, 19)]);
}

#[test]
fn clear_line_bottom_and_top() {
    let mut b = Board::new();
    for x in 0..WIDTH {
        b.set(x, 0, Cell::Filled);
        b.set(x, 19, Cell::Filled);
    }
    b.clear_line(19);
    assert_eq!(b.get(0, 19), Cell::Empty);
    assert_eq!(b.get(0, 1), Cell::Filled);
    b.clear_line(0);
    assert_eq!(b.get(0, 1), Cell::Filled);
    assert_eq!(b.get(0, 0), Cell::Empty);
}

#[test]
fn spawn_masks() {
    let i = Tetromino::new(TetrominoType::I);
    assert_eq!(i.cells[1], [true, true, true, true]);
    assert_eq!(i.cells[0], [false; 4]);
    let o = Tetromino::new(TetrominoType::O);
    assert_eq!(o.cells[0], [false, true, true, false]);
    assert_eq!(o.cells[1], [false, true, true, false]);
    let t = Tetromino::new(TetrominoType::T);
    assert_eq!(t.cells[1], [false, true, false, false]);
    assert_eq!(t.cells[2], [true, true, true, false]);
    let l = Tetromino::new(TetrominoType::L);
    assert_eq!(l.cells[0], [false, false, true, false]);
    let j = Tetromino::new(TetrominoType::J);
    assert_eq!(j.cells[0], [true, false, false, false]);
    let s = Tetromino::new(TetrominoType::S);
    assert_eq!(s.cells[1], [true, true, false, false]);
    let z = Tetromino::new(TetrominoType::Z);
    assert_eq!(z.cells[0], [true, true, false, false]);
    assert_eq!(z.tetromino_type, TetrominoType::Z);
}

#[test]
fn rotation_clockwise_of_i_is_column_two() {
    let mut i = Tetromino::new(TetrominoType::I);
    i.rotate_clockwise();
    for r in 0..4 {
        assert_eq!(i.cells[r], [false, false, true, false]);
    }
    i.rotate_anticlockwise();
    assert_eq!(i.cells, Tetromino::new(TetrominoType::I).cells);
}

#[test]
fn rotation_anticlockwise_of_l() {
    let mut l = Tetromino::new(TetrominoType::L);
    l.rotate_anticlockwise();
    // new[3 - x][y] = old[y][x]
    let old = Tetromino::new(TetrominoType::L).cells;
    for y in 0..4 {
        for x in 0..4 {
            assert_eq!(l.cells[3 - x][y], old[y][x]);
        }
    }
    assert_eq!(l.tetromino_type, TetrominoType::L);
}

#[test]
fn four_rotations_restore_every_mask() {
    let kinds = [
        TetrominoType::I,
        TetrominoType::O,
        TetrominoType::T,
        TetrominoType::L,
        TetrominoType::J,
        TetrominoType::S,
        TetrominoType::Z,
    ];
    for k in kinds {
        let start = Tetromino::new(k);
        let mut p = start;
        for _ in 0..4 {
            p.rotate_clockwise();
        }
        assert_eq!(p.cells, start.cells);
        let mut q = start;
        q.rotate_clockwise();
        let turned = q.cells;
        for _ in 0..4 {
            q.rotate_anticlockwise();
        }
        assert_eq!(q.cells, turned);
    }
}

#[test]
fn new_game_is_on_title_with_i_active() {
    let g = Game::new_with(TetrominoType::S);
    assert_eq!(g.get_state(), GameState::TitleScreen { selected_option: 0 });
    assert_eq!(g.current_piece().tetromino_type, TetrominoType::I);
    assert_eq!(g.next_piece().tetromino_type, TetrominoType::S);
    assert_eq!(g.next_piece().cells, Tetromino::new(TetrominoType::S).cells);
    assert_eq!((g.piece_x(), g.piece_y()), (SPAWN_X, 0));
    assert_eq!(SPAWN_X as usize, WIDTH / 2 - 2);
    assert_eq!(g.score(), 0);
    assert_eq!(g.held_piece(), None);
    assert!(g.can_hold());
    assert!(is_empty_board(g.board()));
}

#[test]
fn move_piece_is_all_or_nothing() {
    let mut g = playing(TetrominoType::O);
    // I at x = 3 spans columns 3..=6
    assert!(g.move_piece(1, 0));
    assert_eq!((g.piece_x(), g.piece_y()), (4, 0));
    assert!(g.move_piece(2, 1));
    assert_eq!((g.piece_x(), g.piece_y()), (6, 1));
    // columns 6..=9 are the last that fit
    assert!(!g.move_piece(1, 0));
    assert_eq!((g.piece_x(), g.piece_y()), (6, 1));
    assert!(!g.move_piece(1, 5));
    assert_eq!((g.piece_x(), g.piece_y()), (6, 1));
    assert!(g.move_piece(-6, 0));
    assert!(!g.move_piece(-1, 0));
    assert_eq!((g.piece_x(), g.piece_y()), (0, 1));
    // cells above the board never collide
    assert!(g.move_piece(0, -5));
    assert_eq!(g.piece_y(), -4);
    // the floor
    assert!(g.move_piece(0, 22));
    assert_eq!(g.piece_y(), 18);
    assert!(!g.move_piece(0, 1));
    assert_eq!(g.piece_y(), 18);
}

#[test]
fn rotate_reverts_when_blocked() {
    let mut g = playing(TetrominoType::O);
    assert!(g.move_piece(0, 18));
    let before = g.current_piece().cells;
    g.rotate(true);
    assert_eq!(g.current_piece().cells, before);
    assert_eq!((g.piece_x(), g.piece_y()), (SPAWN_X, 18));
    g.rotate(false);
    assert_eq!(g.current_piece().cells, before);
    assert_eq!((g.piece_x(), g.piece_y()), (SPAWN_X, 18));
}

#[test]
fn rotate_reverts_at_wall_and_on_filled_cells() {
    let mut g = playing(TetrominoType::O);
    g.rotate(true);
    // vertical I in column 2 of its box: anchor -2 puts it in column 0
    shift(&mut g, -5);
    assert_eq!(g.piece_x(), -2);
    let vertical = g.current_piece().cells;
    g.rotate(true);
    assert_eq!(g.current_piece().cells, vertical);
    assert_eq!(g.piece_x(), -2);

    let mut h = playing(TetrominoType::O);
    // drop a horizontal I to the floor at columns 3..=6, row 19
    h.hard_drop_with(TetrominoType::I);
    // an O now, then an I: move the I to rows 16..=19 would need row 19 free
    h.hard_drop_with(TetrominoType::I);
    let mut p = h;
    assert_eq!(p.current_piece().tetromino_type, TetrominoType::I);
    assert!(p.move_piece(0, 15));
    let flat = p.current_piece().cells;
    // turning clockwise puts cells in column 5, rows 15..=18, where the O is
    p.rotate(true);
    assert_eq!(p.current_piece().cells, flat);
    assert_eq!((p.piece_x(), p.piece_y()), (SPAWN_X, 15));
}

#[test]
fn rotate_turns_when_free() {
    let mut g = playing(TetrominoType::O);
    assert!(g.move_piece(0, 5));
    g.rotate(true);
    let mut expected = Tetromino::new(TetrominoType::I);
    expected.rotate_clockwise();
    assert_eq!(g.current_piece().cells, expected.cells);
    assert_eq!((g.piece_x(), g.piece_y()), (SPAWN_X, 5));
}

#[test]
fn o_piece_falls_and_locks_at_bottom() {
    let mut g = playing(TetrominoType::O);
    g.spawn_piece_with(TetrominoType::T);
    assert_eq!(g.current_piece().tetromino_type, TetrominoType::O);
    assert_eq!((g.piece_x(), g.piece_y()), (4 - 1, 0));
    for _ in 0..18 {
        assert!(g.move_piece(0, 1));
    }
    assert_eq!(g.piece_y(), 18);
    g.hard_drop_with(TetrominoType::Z);
    assert_eq!(filled_cells(g.board()), vec![(4, 18), (5, 18), (4, 19), (5, 19)]);
    assert_eq!(g.score(), 0);
    assert_eq!(g.current_piece().tetromino_type, TetrominoType::T);
    assert_eq!(g.next_piece().tetromino_type, TetrominoType::Z);
    assert_eq!(g.get_state(), GameState::Playing);
}

#[test]
fn horizontal_i_completes_bottom_row() {
    let mut g = playing(TetrominoType::O);
    // I to columns 6..=9 of row 19
    shift(&mut g, 3);
    g.hard_drop_with(TetrominoType::I);
    // O to columns 4..=5 of rows 18..=19
    g.hard_drop_with(TetrominoType::I);
    assert_eq!(
        filled_cells(g.board()),
        vec![(4, 18), (5, 18), (4, 19), (5, 19), (6, 19), (7, 19), (8, 19), (9, 19)]
    );
    assert_eq!(g.score(), 0);
    // an I into columns 0..=3 of row 19
    shift(&mut g, -3);
    g.hard_drop_with(TetrominoType::I);
    assert_eq!(g.score(), 100);
    // row 19 is gone and row 18 has moved down
    assert_eq!(filled_cells(g.board()), vec![(4, 19), (5, 19)]);
}

#[test]
fn vertical_i_completes_bottom_row_but_column_zero() {
    let mut g = playing(TetrominoType::I);
    // row 19 columns 1..=4 and 5..=8
    shift(&mut g, -2);
    g.hard_drop_with(TetrominoType::I);
    shift(&mut g, 2);
    g.hard_drop_with(TetrominoType::I);
    // a vertical I in column 9
    g.rotate(true);
    shift(&mut g, 4);
    g.hard_drop_with(TetrominoType::I);
    let mut expected = Vec::new();
    for y in 16..19 {
        expected.push((9, y));
    }
    for x in 1..WIDTH {
        expected.push((x, 19));
    }
    assert_eq!(filled_cells(g.board()), expected);
    // a vertical I in column 0 completes row 19 only
    g.rotate(true);
    shift(&mut g, -5);
    g.hard_drop_with(TetrominoType::I);
    assert_eq!(g.score(), 100);
    let mut after = Vec::new();
    for y in 17..20 {
        after.push((0, y));
        after.push((9, y));
    }
    assert_eq!(filled_cells(g.board()), after);
}

#[test]
fn two_rows_score_three_hundred() {
    let mut g = playing(TetrominoType::O);
    g.restart_with(TetrominoType::O);
    // now an O is active
    assert_eq!(g.current_piece().tetromino_type, TetrominoType::O);
    for target in [1, 3, 5, 7] {
        shift(&mut g, target - SPAWN_X);
        g.hard_drop_with(TetrominoType::O);
    }
    assert_eq!(filled_cells(g.board()).len(), 16);
    assert_eq!(g.score(), 0);
    shift(&mut g, -1 - SPAWN_X);
    g.hard_drop_with(TetrominoType::O);
    assert_eq!(g.score(), 300);
    assert!(is_empty_board(g.board()));
}

#[test]
fn three_rows_score_five_hundred() {
    let mut g = playing(TetrominoType::O);
    g.restart_with(TetrominoType::O);
    // four O pieces over columns 1..=8 of rows 18..=19
    let queued = [TetrominoType::O, TetrominoType::O, TetrominoType::I, TetrominoType::I];
    for (n, next) in queued.iter().enumerate() {
        assert_eq!(g.current_piece().tetromino_type, TetrominoType::O);
        shift(&mut g, 2 * n as i32 - SPAWN_X);
        g.hard_drop_with(*next);
    }
    // a vertical I in column 9, rows 16..=19
    g.rotate(true);
    shift(&mut g, 4);
    g.hard_drop_with(TetrominoType::I);
    // two flat I pieces over columns 1..=8 of row 17
    shift(&mut g, 1 - SPAWN_X);
    g.hard_drop_with(TetrominoType::I);
    shift(&mut g, 5 - SPAWN_X);
    g.hard_drop_with(TetrominoType::I);
    assert_eq!(filled_cells(g.board()).len(), 16 + 4 + 8);
    assert_eq!(g.score(), 0);
    // a vertical I in column 0 completes rows 17, 18 and 19
    g.rotate(true);
    shift(&mut g, -5);
    g.hard_drop_with(TetrominoType::I);
    assert_eq!(g.score(), 500);
    assert_eq!(filled_cells(g.board()), vec![(0, 19), (9, 19)]);
}

#[test]
fn four_rows_score_eight_hundred() {
    let mut g = playing(TetrominoType::O);
    g.restart_with(TetrominoType::O);
    // eight O pieces; the last two drops queue the two I pieces
    let queued = [
        TetrominoType::O,
        TetrominoType::O,
        TetrominoType::O,
        TetrominoType::O,
        TetrominoType::O,
        TetrominoType::O,
        TetrominoType::I,
        TetrominoType::I,
    ];
    for (n, next) in queued.iter().enumerate() {
        assert_eq!(g.current_piece().tetromino_type, TetrominoType::O);
        let target = [0, 2, 4, 6][n % 4];
        shift(&mut g, target - SPAWN_X);
        g.hard_drop_with(*next);
    }
    // a vertical I for column 9
    g.rotate(true);
    assert_eq!(g.current_piece().tetromino_type, TetrominoType::I);
    shift(&mut g, 4);
    g.hard_drop_with(TetrominoType::I);
    assert_eq!(g.score(), 0);
    assert_eq!(filled_cells(g.board()).len(), 4 * 9);
    g.rotate(true);
    shift(&mut g, -5);
    g.hard_drop_with(TetrominoType::I);
    assert_eq!(g.score(), 800);
}

#[test]
fn hold_twice_is_a_no_op() {
    let mut g = playing(TetrominoType::T);
    g.hold_piece_with(TetrominoType::S);
    assert_eq!(g.held_piece(), Some(TetrominoType::I));
    assert_eq!(g.current_piece().tetromino_type, TetrominoType::T);
    assert_eq!(g.next_piece().tetromino_type, TetrominoType::S);
    assert!(!g.can_hold());
    assert!(g.move_piece(1, 2));
    let cells = g.current_piece().cells;
    g.hold_piece_with(TetrominoType::Z);
    assert_eq!(g.held_piece(), Some(TetrominoType::I));
    assert_eq!(g.current_piece().tetromino_type, TetrominoType::T);
    assert_eq!(g.current_piece().cells, cells);
    assert_eq!(g.next_piece().tetromino_type, TetrominoType::S);
    assert_eq!((g.piece_x(), g.piece_y()), (SPAWN_X + 1, 2));
    assert_eq!(g.score(), 0);
    assert!(is_empty_board(g.board()));
    g.hold_piece();
    assert_eq!(g.held_piece(), Some(TetrominoType::I));
    assert_eq!(g.next_piece().tetromino_type, TetrominoType::S);
}

#[test]
fn hold_swaps_with_held_piece_after_lock() {
    let mut g = playing(TetrominoType::T);
    g.hold_piece_with(TetrominoType::S);
    g.rotate(true);
    g.hard_drop_with(TetrominoType::Z);
    // S is active now, I is held, hold is allowed again
    assert_eq!(g.current_piece().tetromino_type, TetrominoType::S);
    assert!(g.can_hold());
    assert!(g.move_piece(-1, 3));
    g.hold_piece_with(TetrominoType::O);
    assert_eq!(g.current_piece().tetromino_type, TetrominoType::I);
    assert_eq!(g.current_piece().cells, Tetromino::new(TetrominoType::I).cells);
    assert_eq!(g.held_piece(), Some(TetrominoType::S));
    assert_eq!(g.next_piece().tetromino_type, TetrominoType::Z);
    assert_eq!((g.piece_x(), g.piece_y()), (SPAWN_X, 0));
    assert!(!g.can_hold());
}

#[test]
fn restart_resets_everything() {
    let mut g = playing(TetrominoType::O);
    shift(&mut g, -3);
    g.hard_drop_with(TetrominoType::O);
    g.hold_piece_with(TetrominoType::L);
    g.toggle_pause();
    assert_eq!(g.get_state(), GameState::Paused);
    g.restart_with(TetrominoType::J);
    assert_eq!(g.score(), 0);
    assert!(is_empty_board(g.board()));
    assert_eq!(g.held_piece(), None);
    assert!(g.can_hold());
    assert_eq!(g.get_state(), GameState::Playing);
    assert_eq!(g.next_piece().tetromino_type, TetrominoType::J);
    assert_eq!((g.piece_x(), g.piece_y()), (SPAWN_X, 0));

    let mut over = playing(TetrominoType::O);
    for _ in 0..10 {
        over.hard_drop_with(TetrominoType::O);
    }
    assert_eq!(over.get_state(), GameState::GameOver);
    over.restart();
    assert_eq!(over.get_state(), GameState::Playing);
    assert!(is_empty_board(over.board()));
    assert_eq!(over.score(), 0);
}

#[test]
fn stacking_to_the_top_ends_the_game() {
    let mut g = playing(TetrominoType::O);
    for _ in 0..9 {
        g.hard_drop_with(TetrominoType::O);
        assert_eq!(g.get_state(), GameState::Playing);
    }
    g.hard_drop_with(TetrominoType::O);
    assert_eq!(g.get_state(), GameState::GameOver);
}

#[test]
fn title_menu_wraps() {
    let mut g = Game::new_with(TetrominoType::T);
    assert_eq!(g.handle_title_input(MenuKey::Up), MenuAction::Stay);
    assert_eq!(g.get_state(), GameState::TitleScreen { selected_option: 3 });
    assert_eq!(g.handle_title_input(MenuKey::Down), MenuAction::Stay);
    assert_eq!(g.get_state(), GameState::TitleScreen { selected_option: 0 });
    assert_eq!(g.handle_title_input(MenuKey::Down), MenuAction::Stay);
    assert_eq!(g.get_state(), GameState::TitleScreen { selected_option: 1 });
    assert_eq!(g.handle_title_input(MenuKey::Other), MenuAction::Stay);
    assert_eq!(g.get_state(), GameState::TitleScreen { selected_option: 1 });
}

#[test]
fn title_menu_choices() {
    let mut g = Game::new_with(TetrominoType::T);
    g.handle_title_input(MenuKey::Down);
    g.handle_title_input(MenuKey::Down);
    assert_eq!(g.handle_title_input(MenuKey::Enter), MenuAction::OpenLink);
    assert_eq!(g.get_state(), GameState::TitleScreen { selected_option: 2 });
    g.handle_title_input(MenuKey::Down);
    assert_eq!(g.handle_title_input(MenuKey::Enter), MenuAction::Quit);
    assert_eq!(g.get_state(), GameState::TitleScreen { selected_option: 3 });
    g.handle_title_input(MenuKey::Up);
    g.handle_title_input(MenuKey::Up);
    assert_eq!(g.handle_title_input(MenuKey::Enter), MenuAction::Stay);
    assert_eq!(g.get_state(), GameState::Paused);
    // keys do nothing away from the title screen
    assert_eq!(g.handle_title_input(MenuKey::Up), MenuAction::Stay);
    assert_eq!(g.get_state(), GameState::Paused);
}

#[test]
fn toggle_pause_swaps_playing_and_paused() {
    let mut g = Game::new_with(TetrominoType::T);
    g.toggle_pause();
    assert_eq!(g.get_state(), GameState::TitleScreen { selected_option: 0 });
    g.handle_title_input(MenuKey::Enter);
    g.toggle_pause();
    assert_eq!(g.get_state(), GameState::Paused);
    g.toggle_pause();
    assert_eq!(g.get_state(), GameState::Playing);
}

#[test]
fn landing_position_and_render() {
    let mut g = playing(TetrominoType::O);
    // horizontal I falls to anchor row 18
    assert_eq!(g.get_landing_position(), 18);
    assert_eq!(g.piece_y(), 0);
    let shown = g.render_board();
    for x in 3..7 {
        assert_eq!(shown.get(x, 1), Cell::Filled);
        assert_eq!(shown.get(x, 19), Cell::Preview);
    }
    assert_eq!(shown.get(2, 19), Cell::Empty);
    // the engine's board is untouched
    assert!(is_empty_board(g.board()));
    g.hard_drop_with(TetrominoType::O);
    // the O lands on the I
    assert_eq!(g.get_landing_position(), 17);
    let shown = g.render_board();
    assert_eq!(shown.get(4, 17), Cell::Preview);
    assert_eq!(shown.get(4, 18), Cell::Preview);
    assert_eq!(shown.get(4, 19), Cell::Filled);
    assert_eq!(shown.get(4, 0), Cell::Filled);
}

#[test]
fn random_draws_stay_among_the_seven() {
    let mut g = Game::new();
    assert_eq!(g.get_state(), GameState::TitleScreen { selected_option: 0 });
    assert_eq!(g.current_piece().tetromino_type, TetrominoType::I);
    for _ in 0..50 {
        g.spawn_piece();
        let next = g.next_piece();
        assert_eq!(next.cells, Tetromino::new(next.tetromino_type).cells);
    }
    g.restart();
    assert_eq!(g.score(), 0);
    g.hold_piece();
    assert!(!g.can_hold());
    g.hard_drop();
    assert!(g.can_hold());
    assert_eq!(filled_cells(g.board()).len(), 4);
    g.lock_piece();
}
