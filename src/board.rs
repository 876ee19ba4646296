//! The playing field: a fixed grid of cells.

use vstd::prelude::*;

verus! {

/// Number of columns of the board.
pub const WIDTH: usize = 10;

/// Number of rows of the board.
pub const HEIGHT: usize = 20;

/// The state of one board cell.
#[derive(Clone, Copy, PartialEq, Eq, Structural, Debug)]
pub enum Cell {
    Empty,
    Filled,
    /// A rendering hint for the landing preview; never occupied.
    Preview,
}

/// The glyph drawn for a cell.
pub open spec fn glyph(c: Cell) -> Seq<char> {
    match c {
        Cell::Empty => "⬜"@,
        Cell::Filled => "⬛"@,
        Cell::Preview => "🟦"@,
    }
}

impl Cell {
    pub fn to_string(&self) -> (r: &'static str)
        ensures
            r@ == glyph(*self),
    {
        proof {
            reveal_strlit("⬜");
            reveal_strlit("⬛");
            reveal_strlit("🟦");
        }
        match self {
            Cell::Empty => "⬜",
            Cell::Filled => "⬛",
            Cell::Preview => "🟦",
        }
    }
}


/// A row with every cell empty.
pub open spec fn empty_row() -> Seq<Cell> {
    Seq::new(WIDTH as nat, |x: int| Cell::Empty)
}

/// A board of `n` empty rows.
pub open spec fn empty_rows(n: nat) -> Seq<Seq<Cell>> {
    Seq::new(n, |y: int| empty_row())
}

/// A grid of the board's size: `HEIGHT` rows of `WIDTH` cells.
pub open spec fn is_grid(rows: Seq<Seq<Cell>>) -> bool {
    &&& rows.len() == HEIGHT
    &&& forall|y: int| 0 <= y < HEIGHT ==> (#[trigger] rows[y]).len() == WIDTH
}

/// The fixed-size grid of cells, indexed by row then column.
#[derive(Clone, Copy)]
pub struct Board {
    cells: [[Cell; WIDTH]; HEIGHT],
}

impl View for Board {
    type V = Seq<Seq<Cell>>;

    /// The rows of the board, top row first.
    closed spec fn view(&self) -> Seq<Seq<Cell>> {
        self.cells@.map_values(|row: [Cell; WIDTH]| row@)
    }
}

impl Board {
    /// Every board is a grid of the board's size.
    pub proof fn lemma_grid(&self)
        ensures
            is_grid(self@),
    {
    }

    pub fn new() -> (r: Board)
        ensures
            r@ == empty_rows(HEIGHT as nat),
    {
        let r = Board { cells: [[Cell::Empty; WIDTH]; HEIGHT] };
        assert(r@ =~~= empty_rows(HEIGHT as nat));
        r
    }

    pub fn get(&self, x: usize, y: usize) -> (r: Cell)
        requires
            x < WIDTH,
            y < HEIGHT,
        ensures
            r == self@[y as int][x as int],
    {
        self.cells[y][x]
    }

    pub fn set(&mut self, x: usize, y: usize, cell: Cell)
        requires
            x < WIDTH,
            y < HEIGHT,
        ensures
            final(self)@ == old(self)@.update(y as int, old(self)@[y as int].update(x as int, cell)),
    {
        self.cells[y][x] = cell;
        assert(self@ =~~= old(self)@.update(y as int, old(self)@[y as int].update(x as int, cell)));
    }

    /// Removes row `y`: every row above it moves down by one and the top row
    /// becomes empty.
    pub fn clear_line(&mut self, y: usize)
        requires
            y < HEIGHT,
        ensures
            final(self)@ == seq![empty_row()] + old(self)@.remove(y as int),
    {
        let ghost before = self.cells@;
        let mut row: usize = y;
        while row > 0
            invariant
                row <= y < HEIGHT,
                self.cells@.len() == HEIGHT,
                before.len() == HEIGHT,
                forall|r: int| 0 <= r <= row ==> #[trigger] self.cells@[r] == before[r],
                forall|r: int| row < r <= y ==> #[trigger] self.cells@[r] == before[r - 1],
                forall|r: int| y < r < HEIGHT ==> #[trigger] self.cells@[r] == before[r],
            decreases row,
        {
            let above = self.cells[row - 1];
            self.cells[row] = above;
            row = row - 1;
        }
        self.cells[0] = [Cell::Empty; WIDTH];
        assert(self.cells@[0]@ =~= empty_row());
        assert(self@ =~~= seq![empty_row()] + old(self)@.remove(y as int));
    }
}

} // verus!
