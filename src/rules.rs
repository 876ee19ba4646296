//! Board-level rules: collision, where a falling piece comes to rest,
//! writing a piece onto a board, and clearing full rows.

use vstd::prelude::*;

use crate::board::{empty_row, empty_rows, is_grid, Board, Cell, HEIGHT, WIDTH};
use crate::tetromino::{has_block, Tetromino};

verus! {

/// Whether a filled mask cell at board coordinate `(bx, by)` is out of bounds
/// or on a filled cell. Rows above the board (`by < 0`) block nothing.
pub open spec fn blocked(board: Seq<Seq<Cell>>, bx: int, by: int) -> bool {
    bx < 0 || bx >= WIDTH || by >= HEIGHT || (by >= 0 && board[by][bx] == Cell::Filled)
}

/// Whether `mask` anchored at `(x, y)` collides with the walls, the floor or
/// the filled cells of `board`.
pub open spec fn collides(board: Seq<Seq<Cell>>, mask: Seq<Seq<bool>>, x: int, y: int) -> bool {
    exists|r: int, c: int| 0 <= r < 4 && 0 <= c < 4 && #[trigger] mask[r][c] && blocked(board, x + c, y + r)
}

/// The row at which `mask` comes to rest when it falls from row `y`.
pub open spec fn drop_row(board: Seq<Seq<Cell>>, mask: Seq<Seq<bool>>, x: int, y: int) -> int
    decreases HEIGHT - y,
{
    if y < HEIGHT && !collides(board, mask, x, y + 1) {
        drop_row(board, mask, x, y + 1)
    } else {
        y
    }
}

/// A mask with a filled cell that does not collide has its anchor row above
/// the floor.
pub proof fn lemma_fit_above_floor(board: Seq<Seq<Cell>>, mask: Seq<Seq<bool>>, x: int, y: int)
    requires
        has_block(mask),
        !collides(board, mask, x, y),
    ensures
        y < HEIGHT,
{
    let (r, c) = choose|r: int, c: int| 0 <= r < 4 && 0 <= c < 4 && #[trigger] mask[r][c];
    assert(!blocked(board, x + c, y + r));
}

/// Whether `mask` anchored at `(x, y)` has a filled cell over board cell
/// `(bx, by)`.
pub open spec fn covers(mask: Seq<Seq<bool>>, x: int, y: int, bx: int, by: int) -> bool {
    0 <= by - y < 4 && 0 <= bx - x < 4 && mask[by - y][bx - x]
}

/// `board` with `cell` written under every filled cell of `mask` anchored at
/// `(x, y)` that lies on the board; with `only_empty`, only where the board
/// cell is empty.
pub open spec fn painted(
    board: Seq<Seq<Cell>>,
    mask: Seq<Seq<bool>>,
    x: int,
    y: int,
    cell: Cell,
    only_empty: bool,
) -> Seq<Seq<Cell>> {
    Seq::new(
        HEIGHT as nat,
        |r: int|
            Seq::new(
                WIDTH as nat,
                |c: int|
                    if covers(mask, x, y, c, r) && (!only_empty || board[r][c] == Cell::Empty) {
                        cell
                    } else {
                        board[r][c]
                    },
            ),
    )
}

/// `painted` restricted to the mask cells that come before index `k` in
/// row-major order.
spec fn painted_upto(
    board: Seq<Seq<Cell>>,
    mask: Seq<Seq<bool>>,
    x: int,
    y: int,
    cell: Cell,
    only_empty: bool,
    k: int,
) -> Seq<Seq<Cell>> {
    Seq::new(
        HEIGHT as nat,
        |r: int|
            Seq::new(
                WIDTH as nat,
                |c: int|
                    if covers(mask, x, y, c, r) && (r - y) * 4 + (c - x) < k && (!only_empty
                        || board[r][c] == Cell::Empty) {
                        cell
                    } else {
                        board[r][c]
                    },
            ),
    )
}

/// Whether every cell of the row is filled.
pub open spec fn row_full(row: Seq<Cell>) -> bool {
    forall|c: int| 0 <= c < WIDTH ==> row[c] == Cell::Filled
}

/// The rows that are not full, in their order.
pub open spec fn kept_rows(rows: Seq<Seq<Cell>>) -> Seq<Seq<Cell>>
    decreases rows.len(),
{
    if rows.len() == 0 {
        rows
    } else {
        let rest = kept_rows(rows.subrange(1, rows.len() as int));
        if row_full(rows[0]) {
            rest
        } else {
            seq![rows[0]] + rest
        }
    }
}

/// The number of full rows: the rows that clearing removes.
pub open spec fn full_count(rows: Seq<Seq<Cell>>) -> int {
    rows.len() - kept_rows(rows).len()
}

/// The board after every full row is removed and the rows above have fallen:
/// as many empty rows as were removed, then the other rows in their order.
pub open spec fn cleared(rows: Seq<Seq<Cell>>) -> Seq<Seq<Cell>> {
    empty_rows(full_count(rows) as nat) + kept_rows(rows)
}

/// Points for clearing `n` rows with one lock.
pub open spec fn line_points(n: int) -> int {
    if n == 1 {
        100
    } else if n == 2 {
        300
    } else if n == 3 {
        500
    } else if n == 4 {
        800
    } else {
        0
    }
}

/// Writes `cell` under the filled cells of `piece` anchored at `(x, y)` that
/// lie on the board; with `only_empty`, only over empty cells.
pub fn paint(board: &mut Board, piece: &Tetromino, x: i32, y: i32, cell: Cell, only_empty: bool)
    ensures
        final(board)@ == painted(old(board)@, piece.mask(), x as int, y as int, cell, only_empty),
{
    let ghost b0 = board@;
    let ghost m = piece.mask();
    proof {
        board.lemma_grid();
        assert(board@ =~~= painted_upto(b0, m, x as int, y as int, cell, only_empty, 0));
    }
    let mut row: usize = 0;
    while row < 4
        invariant
            row <= 4,
            is_grid(b0),
            m == piece.mask(),
            board@ == painted_upto(b0, m, x as int, y as int, cell, only_empty, 4 * row),
        decreases 4 - row,
    {
        let mut col: usize = 0;
        while col < 4
            invariant
                row < 4,
                col <= 4,
                is_grid(b0),
                m == piece.mask(),
                board@ == painted_upto(b0, m, x as int, y as int, cell, only_empty, 4 * row + col),
            decreases 4 - col,
        {
            let ghost k = 4 * row + col;
            if piece.cells[row][col] {
                assert(m[row as int][col as int]);
                let board_x: i64 = x as i64 + col as i64;
                let board_y: i64 = y as i64 + row as i64;
                if board_y >= 0 && board_y < HEIGHT as i64 && board_x >= 0 && board_x
                    < WIDTH as i64 {
                    if !only_empty || board.get(board_x as usize, board_y as usize)
                        == Cell::Empty {
                        board.set(board_x as usize, board_y as usize, cell);
                    }
                }
            }
            assert(board@ =~~= painted_upto(b0, m, x as int, y as int, cell, only_empty, k + 1));
            col = col + 1;
        }
        row = row + 1;
    }
    assert(board@ =~~= painted(b0, m, x as int, y as int, cell, only_empty));
}

/// Rows none of which is full are all kept.
proof fn lemma_kept_all(s: Seq<Seq<Cell>>)
    requires
        forall|i: int| 0 <= i < s.len() ==> !row_full(#[trigger] s[i]),
    ensures
        kept_rows(s) == s,
    decreases s.len(),
{
    if s.len() > 0 {
        let t = s.subrange(1, s.len() as int);
        assert forall|i: int| 0 <= i < t.len() implies !row_full(#[trigger] t[i]) by {
            assert(t[i] == s[i + 1]);
        }
        lemma_kept_all(t);
        assert(seq![s[0]] + t =~= s);
    }
}

/// With `y` the only full row, exactly row `y` is dropped.
proof fn lemma_kept_one(s: Seq<Seq<Cell>>, y: int)
    requires
        0 <= y < s.len(),
        row_full(s[y]),
        forall|i: int| 0 <= i < s.len() && i != y ==> !row_full(#[trigger] s[i]),
    ensures
        kept_rows(s) == s.remove(y),
    decreases s.len(),
{
    let t = s.subrange(1, s.len() as int);
    assert forall|i: int| 0 <= i < t.len() && i != y - 1 implies !row_full(#[trigger] t[i]) by {
        assert(t[i] == s[i + 1]);
    }
    if y == 0 {
        lemma_kept_all(t);
        assert(s.remove(0) =~= t);
    } else {
        assert(t[y - 1] == s[y]);
        lemma_kept_one(t, y - 1);
        assert(seq![s[0]] + t.remove(y - 1) =~= s.remove(y));
    }
}

/// Where row `y` is the only full row, clearing the board is removing row `y`
/// as `Board::clear_line(y)` does: one row is counted, the top row becomes
/// empty, the rows above `y` move down by one and the rows below `y` stay as
/// they were.
pub proof fn lemma_single_full_row(rows: Seq<Seq<Cell>>, y: int)
    requires
        is_grid(rows),
        0 <= y < HEIGHT,
        row_full(rows[y]),
        forall|r: int| 0 <= r < HEIGHT && r != y ==> !row_full(#[trigger] rows[r]),
    ensures
        full_count(rows) == 1,
        cleared(rows) == seq![empty_row()] + rows.remove(y),
        cleared(rows)[0] == empty_row(),
        forall|r: int| 0 < r <= y ==> #[trigger] cleared(rows)[r] == rows[r - 1],
        forall|r: int| y < r < HEIGHT ==> #[trigger] cleared(rows)[r] == rows[r],
{
    lemma_kept_one(rows, y);
    assert(empty_rows(1) =~= seq![empty_row()]);
    assert(cleared(rows) =~= seq![empty_row()] + rows.remove(y));
}

} // verus!
