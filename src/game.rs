//! The engine: the active, next and held pieces, score, the hold flag and
//! the screen state machine, with the commands that drive them.

use rand::Rng;
use vstd::prelude::*;

use crate::board::{empty_rows, is_grid, Board, Cell, HEIGHT, WIDTH};
use crate::rules::{
    cleared, collides, drop_row, full_count, kept_rows, lemma_fit_above_floor, line_points, paint,
    painted, blocked,
};
use crate::tetromino::{
    has_block, lemma_rot_keeps_block, lemma_spawn_mask_block, rot_acw, rot_cw,
    spawn_mask, Tetromino, TetrominoType,
};

verus! {

/// The anchor column of a freshly spawned piece: it centres the 4-wide box,
/// `WIDTH / 2 - 2`.
pub const SPAWN_X: i32 = 3;

/// The screen the engine is on.
#[derive(Clone, Copy, PartialEq, Eq, Structural, Debug)]
pub enum GameState {
    TitleScreen { selected_option: usize },
    Playing,
    Paused,
    GameOver,
}

/// A key press on the title screen.
#[derive(Clone, Copy, PartialEq, Eq, Structural, Debug)]
pub enum MenuKey {
    Up,
    Down,
    Enter,
    Other,
}

/// What the host has to do after a key on the title screen: nothing, open
/// the project's page, or end the process.
#[derive(Clone, Copy, PartialEq, Eq, Structural, Debug)]
pub enum MenuAction {
    Stay,
    OpenLink,
    Quit,
}

/// The title screen's answer to `key`: the new screen state and the action.
/// Up and Down move the selection round the four options; Enter on option 0
/// starts playing, on 1 shows the controls (the paused screen), on 2 asks to
/// open the link and on 3 asks to quit. Other screens ignore the key.
pub open spec fn title_step(state: GameState, key: MenuKey) -> (GameState, MenuAction) {
    match state {
        GameState::TitleScreen { selected_option } => match key {
            MenuKey::Up => (
                GameState::TitleScreen {
                    selected_option: if selected_option == 0 {
                        3
                    } else {
                        (selected_option - 1) as usize
                    },
                },
                MenuAction::Stay,
            ),
            MenuKey::Down => (
                GameState::TitleScreen { selected_option: ((selected_option + 1) % 4) as usize },
                MenuAction::Stay,
            ),
            MenuKey::Enter => if selected_option == 0 {
                (GameState::Playing, MenuAction::Stay)
            } else if selected_option == 1 {
                (GameState::Paused, MenuAction::Stay)
            } else if selected_option == 2 {
                (state, MenuAction::OpenLink)
            } else if selected_option == 3 {
                (state, MenuAction::Quit)
            } else {
                (state, MenuAction::Stay)
            },
            MenuKey::Other => (state, MenuAction::Stay),
        },
        _ => (state, MenuAction::Stay),
    }
}

/// The screen after the pause toggle: playing and paused swap, other screens
/// stay.
pub open spec fn toggled(state: GameState) -> GameState {
    match state {
        GameState::Playing => GameState::Paused,
        GameState::Paused => GameState::Playing,
        _ => state,
    }
}

/// The whole engine state as mathematical values.
pub struct GameView {
    pub board: Seq<Seq<Cell>>,
    /// Identity of the active piece.
    pub kind: TetrominoType,
    /// Mask of the active piece in its current rotation.
    pub mask: Seq<Seq<bool>>,
    /// Anchor of the active piece: the board cell of the mask's top-left cell.
    pub x: int,
    pub y: int,
    /// Identity of the next piece, which waits in its spawn rotation.
    pub next: TetrominoType,
    pub held: Option<TetrominoType>,
    pub score: int,
    pub can_hold: bool,
    pub state: GameState,
}

/// The engine: board, active piece and its anchor, next and held pieces,
/// score, the hold flag and the screen state.
pub struct Game {
    board: Board,
    current_piece: Tetromino,
    next_piece: Tetromino,
    piece_x: i32,
    piece_y: i32,
    score: u32,
    held_piece: Option<TetrominoType>,
    can_hold: bool,
    state: GameState,
}

impl View for Game {
    type V = GameView;

    closed spec fn view(&self) -> GameView {
        GameView {
            board: self.board@,
            kind: self.current_piece.tetromino_type,
            mask: self.current_piece.mask(),
            x: self.piece_x as int,
            y: self.piece_y as int,
            next: self.next_piece.tetromino_type,
            held: self.held_piece,
            score: self.score as int,
            can_hold: self.can_hold,
            state: self.state,
        }
    }
}

/// The state after the next piece becomes active at the spawn position and
/// `k` becomes the next piece; the game is over if it does not fit there.
pub open spec fn spawn_view(g: GameView, k: TetrominoType) -> GameView {
    GameView {
        kind: g.next,
        mask: spawn_mask(g.next),
        x: SPAWN_X as int,
        y: 0,
        next: k,
        can_hold: true,
        state: if collides(g.board, spawn_mask(g.next), SPAWN_X as int, 0) {
            GameState::GameOver
        } else {
            g.state
        },
        ..g
    }
}

/// The state after the active piece is locked where it stands, full rows are
/// cleared and scored, and the next piece spawns with `k` queued.
pub open spec fn lock_view(g: GameView, k: TetrominoType) -> GameView {
    let stamped = painted(g.board, g.mask, g.x, g.y, Cell::Filled, false);
    spawn_view(
        GameView {
            board: cleared(stamped),
            score: g.score + line_points(full_count(stamped)),
            ..g
        },
        k,
    )
}

/// The state after a hold, where a spawn would queue `k`.
pub open spec fn hold_view(g: GameView, k: TetrominoType) -> GameView {
    if !g.can_hold {
        g
    } else {
        let s = match g.held {
            Some(h) => GameView { kind: h, mask: spawn_mask(h), ..g },
            None => spawn_view(g, k),
        };
        GameView { held: Some(g.kind), x: SPAWN_X as int, y: 0, can_hold: false, ..s }
    }
}

/// The state after a restart, where the spawn queues `k`.
pub open spec fn restart_view(g: GameView, k: TetrominoType) -> GameView {
    spawn_view(
        GameView {
            board: empty_rows(HEIGHT as nat),
            score: 0,
            state: GameState::Playing,
            held: None,
            can_hold: true,
            ..g
        },
        k,
    )
}

/// The state of a new engine whose next piece is `k`.
pub open spec fn initial_view(k: TetrominoType) -> GameView {
    GameView {
        board: empty_rows(HEIGHT as nat),
        kind: TetrominoType::I,
        mask: spawn_mask(TetrominoType::I),
        x: SPAWN_X as int,
        y: 0,
        next: k,
        held: None,
        score: 0,
        can_hold: true,
        state: GameState::TitleScreen { selected_option: 0 },
    }
}

/// A spawn mask at the spawn position fits on an empty board.
proof fn lemma_spawn_fits_empty(t: TetrominoType)
    ensures
        !collides(empty_rows(HEIGHT as nat), spawn_mask(t), SPAWN_X as int, 0),
{
    assert forall|r: int, c: int|
        0 <= r < 4 && 0 <= c < 4 && #[trigger] spawn_mask(t)[r][c] implies !blocked(
        empty_rows(HEIGHT as nat),
        SPAWN_X + c,
        r,
    ) by {
        assert(r <= 2);
        assert(empty_rows(HEIGHT as nat)[r][SPAWN_X + c] == Cell::Empty);
    }
}

/// Relies on rand's `thread_rng().gen_range(0..n)`: a number drawn from
/// `0..n`. It panics on an empty range, which `0 < n` rules out.
#[verifier::external_body]
fn random_below(n: usize) -> (r: usize)
    requires
        0 < n,
    ensures
        r < n,
{
    rand::thread_rng().gen_range(0..n)
}

/// One of the seven identities, drawn uniformly and independently of earlier
/// draws.
fn random_kind() -> TetrominoType {
    let piece_types = [
        TetrominoType::I,
        TetrominoType::O,
        TetrominoType::T,
        TetrominoType::L,
        TetrominoType::J,
        TetrominoType::S,
        TetrominoType::Z,
    ];
    piece_types[random_below(7)]
}

impl Game {
    /// The engine's invariant: the next piece waits in its spawn rotation,
    /// the active piece's mask has a filled cell, the anchor row is on the
    /// board or above it, and the title selection is one of four options.
    pub closed spec fn wf(&self) -> bool {
        &&& self.next_piece.mask() == spawn_mask(self.next_piece.tetromino_type)
        &&& has_block(self.current_piece.mask())
        &&& self.piece_y < HEIGHT
        &&& self.state matches GameState::TitleScreen { selected_option } ==> selected_option < 4
    }

    /// Whether the active piece anchored at `(test_x, test_y)` would collide.
    fn would_collide(&self, test_x: i32, test_y: i32) -> (r: bool)
        ensures
            r == collides(self@.board, self@.mask, test_x as int, test_y as int),
    {
        proof {
            self.board.lemma_grid();
        }
        let ghost m = self@.mask;
        let mut row: usize = 0;
        while row < 4
            invariant
                row <= 4,
                m == self.current_piece.mask(),
                is_grid(self@.board),
                forall|r: int, c: int|
                    0 <= r < row && 0 <= c < 4 && #[trigger] m[r][c] ==> !blocked(
                        self@.board,
                        test_x + c,
                        test_y + r,
                    ),
            decreases 4 - row,
        {
            let mut col: usize = 0;
            while col < 4
                invariant
                    row < 4,
                    col <= 4,
                    m == self.current_piece.mask(),
                    is_grid(self@.board),
                    forall|r: int, c: int|
                        0 <= r < row && 0 <= c < 4 && #[trigger] m[r][c] ==> !blocked(
                            self@.board,
                            test_x + c,
                            test_y + r,
                        ),
                    forall|c: int|
                        0 <= c < col && #[trigger] m[row as int][c] ==> !blocked(
                            self@.board,
                            test_x + c,
                            test_y + row,
                        ),
                decreases 4 - col,
            {
                if self.current_piece.cells[row][col] {
                    assert(m[row as int][col as int]);
                    let board_x: i64 = test_x as i64 + col as i64;
                    let board_y: i64 = test_y as i64 + row as i64;
                    if board_x < 0 || board_x >= WIDTH as i64 || board_y >= HEIGHT as i64 {
                        return true;
                    }
                    if board_y >= 0 && self.board.get(board_x as usize, board_y as usize)
                        == Cell::Filled {
                        return true;
                    }
                }
                col = col + 1;
            }
            row = row + 1;
        }
        false
    }

    /// Whether the active piece collides where it stands.
    fn check_collision(&self) -> (r: bool)
        ensures
            r == collides(self@.board, self@.mask, self@.x, self@.y),
    {
        self.would_collide(self.piece_x, self.piece_y)
    }

    /// Moves the active piece by `(dx, dy)` if it fits there; otherwise leaves
    /// it where it was. Returns whether it moved.
    pub fn move_piece(&mut self, dx: i32, dy: i32) -> (r: bool)
        requires
            old(self).wf(),
            i32::MIN <= old(self)@.x + dx <= i32::MAX,
            i32::MIN <= old(self)@.y + dy <= i32::MAX,
        ensures
            final(self).wf(),
            r == !collides(old(self)@.board, old(self)@.mask, old(self)@.x + dx, old(self)@.y + dy),
            r ==> final(self)@ == (GameView { x: old(self)@.x + dx, y: old(self)@.y + dy, ..old(self)@ }),
            !r ==> final(self)@ == old(self)@,
    {
        self.piece_x = self.piece_x + dx;
        self.piece_y = self.piece_y + dy;
        if self.check_collision() {
            self.piece_x = self.piece_x - dx;
            self.piece_y = self.piece_y - dy;
            false
        } else {
            proof {
                lemma_fit_above_floor(self@.board, self@.mask, self@.x, self@.y);
            }
            true
        }
    }

    /// Turns the active piece a quarter turn, clockwise or anticlockwise,
    /// unless the turned piece would collide: then nothing changes. There are
    /// no wall kicks.
    pub fn rotate(&mut self, is_clockwise: bool)
        requires
            old(self).wf(),
        ensures
            final(self).wf(),
            ({
                let turned = if is_clockwise {
                    rot_cw(old(self)@.mask)
                } else {
                    rot_acw(old(self)@.mask)
                };
                if collides(old(self)@.board, turned, old(self)@.x, old(self)@.y) {
                    final(self)@ == old(self)@
                } else {
                    final(self)@ == (GameView { mask: turned, ..old(self)@ })
                }
            }),
    {
        proof {
            lemma_rot_keeps_block(self.current_piece.mask());
        }
        let cells_before = self.current_piece.cells;
        if is_clockwise {
            self.current_piece.rotate_clockwise();
        } else {
            self.current_piece.rotate_anticlockwise();
        }
        if self.check_collision() {
            self.current_piece.cells = cells_before;
        }
    }
    /// Removes every full row, scanning from the bottom row up; a row that a
    /// removal moves down is examined in turn. Adds the points for the number
    /// of rows removed.
    fn clear_lines(&mut self)
        requires
            old(self).wf(),
            old(self)@.score + 800 <= u32::MAX,
        ensures
            final(self).wf(),
            final(self)@ == (GameView {
                board: cleared(old(self)@.board),
                score: old(self)@.score + line_points(full_count(old(self)@.board)),
                ..old(self)@
            }),
    {
        let ghost rows = self@.board;
        proof {
            self.board.lemma_grid();
            assert(self@.board =~= empty_rows(0) + rows.subrange(0, HEIGHT as int) + kept_rows(
                rows.subrange(HEIGHT as int, HEIGHT as int),
            ));
        }
        let mut lines_cleared: usize = 0;
        let mut top: usize = HEIGHT;
        while top > lines_cleared
            invariant
                lines_cleared <= top <= HEIGHT,
                is_grid(rows),
                self.wf(),
                self@ == (GameView { board: self@.board, ..old(self)@ }),
                self@.board == empty_rows(lines_cleared as nat) + rows.subrange(
                    0,
                    top - lines_cleared,
                ) + kept_rows(rows.subrange(top - lines_cleared, HEIGHT as int)),
            decreases top - lines_cleared,
        {
            let y: usize = top - 1;
            let ghost j = top - lines_cleared;
            let ghost tail = rows.subrange(j - 1, HEIGHT as int);
            proof {
                assert(self@.board[y as int] == rows[j - 1]);
                assert(tail[0] == rows[j - 1]);
                assert(tail.subrange(1, tail.len() as int) =~= rows.subrange(j, HEIGHT as int));
            }
            proof {
                self.board.lemma_grid();
            }
            let mut line_filled = true;
            let mut x: usize = 0;
            while x < WIDTH
                invariant
                    x <= WIDTH,
                    y < HEIGHT,
                    is_grid(self@.board),
                    line_filled == (forall|c: int| 0 <= c < x ==> self@.board[y as int][c] == Cell::Filled),
                decreases WIDTH - x,
            {
                if self.board.get(x, y) != Cell::Filled {
                    line_filled = false;
                }
                x = x + 1;
            }
            if line_filled {
                self.board.clear_line(y);
                lines_cleared = lines_cleared + 1;
                proof {
                    assert(self@.board =~= empty_rows(lines_cleared as nat) + rows.subrange(
                        0,
                        top - lines_cleared,
                    ) + kept_rows(rows.subrange(top - lines_cleared, HEIGHT as int)));
                }
            } else {
                top = top - 1;
                proof {
                    assert(self@.board =~= empty_rows(lines_cleared as nat) + rows.subrange(
                        0,
                        top - lines_cleared,
                    ) + kept_rows(rows.subrange(top - lines_cleared, HEIGHT as int)));
                }
            }
        }
        proof {
            let n = lines_cleared as int;
            assert(rows.subrange(0, HEIGHT as int) =~= rows);
            assert(rows.subrange(0, 0) =~= Seq::<Seq<Cell>>::empty());
            assert(empty_rows(n as nat) + rows.subrange(0, 0) =~= empty_rows(n as nat));
            assert(self@.board == empty_rows(n as nat) + kept_rows(rows));
            self.board.lemma_grid();
            assert(full_count(rows) == n);
            assert(self@.board =~= cleared(rows));
        }
        let points: u32 = if lines_cleared == 1 {
            100
        } else if lines_cleared == 2 {
            300
        } else if lines_cleared == 3 {
            500
        } else if lines_cleared == 4 {
            800
        } else {
            0
        };
        self.score = self.score + points;
    }

    /// Makes the next piece active at the spawn position, queues `next` as the
    /// next piece and allows a hold again. If the new piece does not fit, the
    /// game is over.
    pub fn spawn_piece_with(&mut self, next: TetrominoType)
        requires
            old(self).wf(),
        ensures
            final(self).wf(),
            final(self)@ == spawn_view(old(self)@, next),
    {
        proof {
            lemma_spawn_mask_block(self.next_piece.tetromino_type);
        }
        self.current_piece = self.next_piece;
        self.next_piece = Tetromino::new(next);
        self.piece_x = SPAWN_X;
        self.piece_y = 0;
        if self.check_collision() {
            self.state = GameState::GameOver;
        }
        self.can_hold = true;
    }

    /// `spawn_piece_with`, with the new next piece drawn at random.
    pub fn spawn_piece(&mut self)
        requires
            old(self).wf(),
        ensures
            final(self).wf(),
            final(self)@ == spawn_view(old(self)@, final(self)@.next),
    {
        let next = random_kind();
        self.spawn_piece_with(next);
    }

    /// Writes the active piece's cells that lie on the board as filled,
    /// clears and scores full rows, then spawns the next piece and queues
    /// `next`.
    pub fn lock_piece_with(&mut self, next: TetrominoType)
        requires
            old(self).wf(),
            old(self)@.score + 800 <= u32::MAX,
        ensures
            final(self).wf(),
            final(self)@ == lock_view(old(self)@, next),
    {
        let piece = self.current_piece;
        paint(&mut self.board, &piece, self.piece_x, self.piece_y, Cell::Filled, false);
        self.clear_lines();
        self.spawn_piece_with(next);
    }

    /// `lock_piece_with`, with the new next piece drawn at random.
    pub fn lock_piece(&mut self)
        requires
            old(self).wf(),
            old(self)@.score + 800 <= u32::MAX,
        ensures
            final(self).wf(),
            final(self)@ == lock_view(old(self)@, final(self)@.next),
    {
        let next = random_kind();
        self.lock_piece_with(next);
    }

    /// The row at which the active piece would come to rest if dropped now.
    /// Reads the state only.
    pub fn get_landing_position(&self) -> (r: i32)
        requires
            self.wf(),
        ensures
            r == drop_row(self@.board, self@.mask, self@.x, self@.y),
    {
        let mut test_y = self.piece_y;
        while !self.would_collide(self.piece_x, test_y + 1)
            invariant
                self.wf(),
                test_y < HEIGHT,
                drop_row(self@.board, self@.mask, self@.x, test_y as int) == drop_row(
                    self@.board,
                    self@.mask,
                    self@.x,
                    self@.y,
                ),
            decreases HEIGHT - test_y,
        {
            proof {
                lemma_fit_above_floor(self@.board, self@.mask, self@.x, test_y + 1);
            }
            test_y = test_y + 1;
        }
        test_y
    }

    /// Drops the active piece as far as it falls, then locks it and queues
    /// `next`.
    pub fn hard_drop_with(&mut self, next: TetrominoType)
        requires
            old(self).wf(),
            old(self)@.score + 800 <= u32::MAX,
        ensures
            final(self).wf(),
            final(self)@ == lock_view(
                GameView {
                    y: drop_row(old(self)@.board, old(self)@.mask, old(self)@.x, old(self)@.y),
                    ..old(self)@
                },
                next,
            ),
    {
        while self.move_piece(0, 1)
            invariant
                self.wf(),
                self@ == (GameView { y: self@.y, ..old(self)@ }),
                drop_row(self@.board, self@.mask, self@.x, self@.y) == drop_row(
                    old(self)@.board,
                    old(self)@.mask,
                    old(self)@.x,
                    old(self)@.y,
                ),
            decreases HEIGHT - self@.y,
        {
        }
        self.lock_piece_with(next);
    }

    /// `hard_drop_with`, with the new next piece drawn at random.
    pub fn hard_drop(&mut self)
        requires
            old(self).wf(),
            old(self)@.score + 800 <= u32::MAX,
        ensures
            final(self).wf(),
            final(self)@ == lock_view(
                GameView {
                    y: drop_row(old(self)@.board, old(self)@.mask, old(self)@.x, old(self)@.y),
                    ..old(self)@
                },
                final(self)@.next,
            ),
    {
        let next = random_kind();
        self.hard_drop_with(next);
    }

    /// Sets the active piece aside, once per spawn. A held piece comes back
    /// in its spawn rotation; with none held yet, the next piece spawns (and
    /// `next` is queued), as a spawn after a lock would do. The anchor returns
    /// to the spawn position. Does nothing when a hold was already used since
    /// the last spawn.
    pub fn hold_piece_with(&mut self, next: TetrominoType)
        requires
            old(self).wf(),
        ensures
            final(self).wf(),
            final(self)@ == hold_view(old(self)@, next),
    {
        if self.can_hold {
            let current_type = self.current_piece.tetromino_type;
            match self.held_piece {
                Some(held_type) => {
                    self.current_piece = Tetromino::new(held_type);
                    proof {
                        lemma_spawn_mask_block(held_type);
                    }
                },
                None => {
                    self.spawn_piece_with(next);
                },
            }
            self.held_piece = Some(current_type);
            self.piece_x = SPAWN_X;
            self.piece_y = 0;
            self.can_hold = false;
        }
    }

    /// `hold_piece_with`, with a piece drawn at random for the spawn that a
    /// first hold makes; the drawn piece is not used otherwise.
    pub fn hold_piece(&mut self)
        requires
            old(self).wf(),
        ensures
            final(self).wf(),
            final(self)@ == hold_view(old(self)@, final(self)@.next),
    {
        let next = random_kind();
        self.hold_piece_with(next);
    }

    /// Starts a fresh game: empty board, no score, nothing held, playing; the
    /// next piece spawns and `next` is queued.
    pub fn restart_with(&mut self, next: TetrominoType)
        requires
            old(self).wf(),
        ensures
            final(self).wf(),
            final(self)@ == restart_view(old(self)@, next),
    {
        self.board = Board::new();
        self.score = 0;
        self.state = GameState::Playing;
        self.held_piece = None;
        self.can_hold = true;
        self.spawn_piece_with(next);
    }

    /// `restart_with`, with the new next piece drawn at random.
    pub fn restart(&mut self)
        requires
            old(self).wf(),
        ensures
            final(self).wf(),
            final(self)@ == restart_view(old(self)@, final(self)@.next),
    {
        let next = random_kind();
        self.restart_with(next);
    }

    /// A new engine on the title screen with an `I` piece active and `next`
    /// queued.
    pub fn new_with(next: TetrominoType) -> (r: Game)
        ensures
            r.wf(),
            r@ == initial_view(next),
    {
        let mut game = Game {
            board: Board::new(),
            current_piece: Tetromino::new(TetrominoType::I),
            next_piece: Tetromino::new(TetrominoType::I),
            piece_x: SPAWN_X,
            piece_y: 0,
            score: 0,
            held_piece: None,
            can_hold: true,
            state: GameState::TitleScreen { selected_option: 0 },
        };
        proof {
            lemma_spawn_mask_block(TetrominoType::I);
            lemma_spawn_fits_empty(TetrominoType::I);
        }
        game.spawn_piece_with(next);
        game
    }

    /// `new_with`, with the next piece drawn at random.
    pub fn new() -> (r: Game)
        ensures
            r.wf(),
            r@ == initial_view(r@.next),
    {
        let next = random_kind();
        Game::new_with(next)
    }
    /// Switches between playing and paused; other screens are left as they
    /// are.
    pub fn toggle_pause(&mut self)
        requires
            old(self).wf(),
        ensures
            final(self).wf(),
            final(self)@ == (GameView { state: toggled(old(self)@.state), ..old(self)@ }),
    {
        self.state = match self.state {
            GameState::Playing => GameState::Paused,
            GameState::Paused => GameState::Playing,
            other => other,
        };
    }

    /// Handles a key on the title screen and tells the host what to do; on
    /// any other screen nothing happens.
    pub fn handle_title_input(&mut self, key: MenuKey) -> (r: MenuAction)
        requires
            old(self).wf(),
        ensures
            final(self).wf(),
            final(self)@ == (GameView { state: title_step(old(self)@.state, key).0, ..old(self)@ }),
            r == title_step(old(self)@.state, key).1,
    {
        match self.state {
            GameState::TitleScreen { selected_option } => match key {
                MenuKey::Up => {
                    let option = if selected_option == 0 {
                        3
                    } else {
                        selected_option - 1
                    };
                    self.state = GameState::TitleScreen { selected_option: option };
                    MenuAction::Stay
                },
                MenuKey::Down => {
                    self.state = GameState::TitleScreen { selected_option: (selected_option + 1) % 4 };
                    MenuAction::Stay
                },
                MenuKey::Enter => {
                    if selected_option == 0 {
                        self.state = GameState::Playing;
                        MenuAction::Stay
                    } else if selected_option == 1 {
                        self.state = GameState::Paused;
                        MenuAction::Stay
                    } else if selected_option == 2 {
                        MenuAction::OpenLink
                    } else if selected_option == 3 {
                        MenuAction::Quit
                    } else {
                        MenuAction::Stay
                    }
                },
                MenuKey::Other => MenuAction::Stay,
            },
            _ => MenuAction::Stay,
        }
    }

    /// The board as drawn: the landing preview on the empty cells under the
    /// piece's landing position, then the active piece's cells as filled. The
    /// engine's own board is not changed.
    pub fn render_board(&self) -> (r: Board)
        requires
            self.wf(),
        ensures
            r@ == painted(
                painted(
                    self@.board,
                    self@.mask,
                    self@.x,
                    drop_row(self@.board, self@.mask, self@.x, self@.y),
                    Cell::Preview,
                    true,
                ),
                self@.mask,
                self@.x,
                self@.y,
                Cell::Filled,
                false,
            ),
    {
        let mut shown = self.board;
        let landing_y = self.get_landing_position();
        paint(&mut shown, &self.current_piece, self.piece_x, landing_y, Cell::Preview, true);
        paint(&mut shown, &self.current_piece, self.piece_x, self.piece_y, Cell::Filled, false);
        shown
    }

    pub fn get_state(&self) -> (r: GameState)
        ensures
            r == self@.state,
    {
        self.state
    }

    pub fn board(&self) -> (r: &Board)
        ensures
            r@ == self@.board,
    {
        &self.board
    }

    /// The active piece in its current rotation.
    pub fn current_piece(&self) -> (r: Tetromino)
        ensures
            r.tetromino_type == self@.kind,
            r.mask() == self@.mask,
    {
        self.current_piece
    }

    /// The next piece, in its spawn rotation.
    pub fn next_piece(&self) -> (r: Tetromino)
        requires
            self.wf(),
        ensures
            r.tetromino_type == self@.next,
            r.mask() == spawn_mask(self@.next),
    {
        self.next_piece
    }

    pub fn piece_x(&self) -> (r: i32)
        ensures
            r == self@.x,
    {
        self.piece_x
    }

    pub fn piece_y(&self) -> (r: i32)
        ensures
            r == self@.y,
    {
        self.piece_y
    }

    pub fn score(&self) -> (r: u32)
        ensures
            r == self@.score,
    {
        self.score
    }

    pub fn held_piece(&self) -> (r: Option<TetrominoType>)
        ensures
            r == self@.held,
    {
        self.held_piece
    }

    pub fn can_hold(&self) -> (r: bool)
        ensures
            r == self@.can_hold,
    {
        self.can_hold
    }
}


/// A lock that completes two rows scores 300, and one that completes four
/// scores 800.
pub proof fn lemma_lock_points(g: GameView, k: TetrominoType)
    ensures
        full_count(painted(g.board, g.mask, g.x, g.y, Cell::Filled, false)) == 2 ==> lock_view(
            g,
            k,
        ).score == g.score + 300,
        full_count(painted(g.board, g.mask, g.x, g.y, Cell::Filled, false)) == 4 ==> lock_view(
            g,
            k,
        ).score == g.score + 800,
{
}

/// A second hold right after a hold changes nothing.
pub proof fn lemma_hold_twice(g: GameView, k1: TetrominoType, k2: TetrominoType)
    ensures
        hold_view(hold_view(g, k1), k2) == hold_view(g, k1),
{
}

/// A restart leaves a game in play with no score, an empty board, nothing
/// held and hold allowed, whatever came before.
pub proof fn lemma_restart_resets(g: GameView, k: TetrominoType)
    ensures
        restart_view(g, k).score == 0,
        restart_view(g, k).board == empty_rows(HEIGHT as nat),
        restart_view(g, k).held == None::<TetrominoType>,
        restart_view(g, k).can_hold,
        restart_view(g, k).state == GameState::Playing,
{
    lemma_spawn_fits_empty(g.next);
}

} // verus!
