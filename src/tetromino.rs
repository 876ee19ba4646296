//! The seven pieces, their spawn masks and their quarter turns.

use vstd::prelude::*;

verus! {

/// The seven piece identities.
#[derive(Clone, Copy, PartialEq, Eq, Structural, Debug)]
pub enum TetrominoType {
    I,
    O,
    T,
    L,
    J,
    S,
    Z,
}

/// Whether cell `(r, c)` of the 4×4 spawn mask of `t` is filled.
pub open spec fn spawn_filled(t: TetrominoType, r: int, c: int) -> bool {
    match t {
        TetrominoType::I => r == 1,
        TetrominoType::O => 0 <= r <= 1 && 1 <= c <= 2,
        TetrominoType::T => (r == 1 && c == 1) || (r == 2 && c <= 2),
        TetrominoType::L => (r == 0 && c == 2) || (r == 1 && c <= 2),
        TetrominoType::J => (r == 0 && c == 0) || (r == 1 && c <= 2),
        TetrominoType::S => (r == 0 && 1 <= c <= 2) || (r == 1 && c <= 1),
        TetrominoType::Z => (r == 0 && c <= 1) || (r == 1 && 1 <= c <= 2),
    }
}

/// The canonical spawn mask of `t`, row-major.
pub open spec fn spawn_mask(t: TetrominoType) -> Seq<Seq<bool>> {
    Seq::new(4, |r: int| Seq::new(4, |c: int| spawn_filled(t, r, c)))
}

/// A 4×4 grid of booleans.
pub open spec fn is_mask(m: Seq<Seq<bool>>) -> bool {
    &&& m.len() == 4
    &&& forall|r: int| 0 <= r < 4 ==> (#[trigger] m[r]).len() == 4
}

/// A mask with at least one filled cell.
pub open spec fn has_block(m: Seq<Seq<bool>>) -> bool {
    exists|r: int, c: int| 0 <= r < 4 && 0 <= c < 4 && #[trigger] m[r][c]
}

/// The quarter turn clockwise: `new[x][3 - y] == old[y][x]`.
pub open spec fn rot_cw(m: Seq<Seq<bool>>) -> Seq<Seq<bool>> {
    Seq::new(4, |r: int| Seq::new(4, |c: int| m[3 - c][r]))
}

/// The quarter turn anticlockwise: `new[3 - x][y] == old[y][x]`.
pub open spec fn rot_acw(m: Seq<Seq<bool>>) -> Seq<Seq<bool>> {
    Seq::new(4, |r: int| Seq::new(4, |c: int| m[c][3 - r]))
}

/// A piece: its identity and the occupancy mask of its current rotation.
#[derive(Clone, Copy)]
pub struct Tetromino {
    pub tetromino_type: TetrominoType,
    pub cells: [[bool; 4]; 4],
}

impl Tetromino {
    /// The occupancy mask, `mask()[row][col]`.
    pub open spec fn mask(&self) -> Seq<Seq<bool>> {
        self.cells@.map_values(|row: [bool; 4]| row@)
    }

    /// A piece of identity `t` in its spawn rotation.
    pub fn new(tetromino_type: TetrominoType) -> (r: Tetromino)
        ensures
            r.tetromino_type == tetromino_type,
            r.mask() == spawn_mask(tetromino_type),
    {
        let cells = match tetromino_type {
            TetrominoType::I => [
                [false, false, false, false],
                [true, true, true, true],
                [false, false, false, false],
                [false, false, false, false],
            ],
            TetrominoType::O => [
                [false, true, true, false],
                [false, true, true, false],
                [false, false, false, false],
                [false, false, false, false],
            ],
            TetrominoType::T => [
                [false, false, false, false],
                [false, true, false, false],
                [true, true, true, false],
                [false, false, false, false],
            ],
            TetrominoType::L => [
                [false, false, true, false],
                [true, true, true, false],
                [false, false, false, false],
                [false, false, false, false],
            ],
            TetrominoType::J => [
                [true, false, false, false],
                [true, true, true, false],
                [false, false, false, false],
                [false, false, false, false],
            ],
            TetrominoType::S => [
                [false, true, true, false],
                [true, true, false, false],
                [false, false, false, false],
                [false, false, false, false],
            ],
            TetrominoType::Z => [
                [true, true, false, false],
                [false, true, true, false],
                [false, false, false, false],
                [false, false, false, false],
            ],
        };
        let r = Tetromino { tetromino_type, cells };
        assert(r.mask() =~~= spawn_mask(tetromino_type));
        r
    }

    /// Turns the mask a quarter turn clockwise about its centre.
    pub fn rotate_clockwise(&mut self)
        ensures
            final(self).tetromino_type == old(self).tetromino_type,
            final(self).mask() == rot_cw(old(self).mask()),
    {
        let m = self.cells;
        self.cells = [
            [m[3][0], m[2][0], m[1][0], m[0][0]],
            [m[3][1], m[2][1], m[1][1], m[0][1]],
            [m[3][2], m[2][2], m[1][2], m[0][2]],
            [m[3][3], m[2][3], m[1][3], m[0][3]],
        ];
        assert(self.mask() =~~= rot_cw(old(self).mask()));
    }

    /// Turns the mask a quarter turn anticlockwise about its centre.
    pub fn rotate_anticlockwise(&mut self)
        ensures
            final(self).tetromino_type == old(self).tetromino_type,
            final(self).mask() == rot_acw(old(self).mask()),
    {
        let m = self.cells;
        self.cells = [
            [m[0][3], m[1][3], m[2][3], m[3][3]],
            [m[0][2], m[1][2], m[2][2], m[3][2]],
            [m[0][1], m[1][1], m[2][1], m[3][1]],
            [m[0][0], m[1][0], m[2][0], m[3][0]],
        ];
        assert(self.mask() =~~= rot_acw(old(self).mask()));
    }
}

/// Every piece's mask is a 4×4 grid.
pub proof fn lemma_mask_shape(p: Tetromino)
    ensures
        is_mask(p.mask()),
{
}

/// Four clockwise quarter turns give back the mask they started from.
pub proof fn lemma_rot_cw_four(m: Seq<Seq<bool>>)
    requires
        is_mask(m),
    ensures
        rot_cw(rot_cw(rot_cw(rot_cw(m)))) == m,
{
    assert(rot_cw(rot_cw(rot_cw(rot_cw(m)))) =~~= m);
}

/// Four anticlockwise quarter turns give back the mask they started from.
pub proof fn lemma_rot_acw_four(m: Seq<Seq<bool>>)
    requires
        is_mask(m),
    ensures
        rot_acw(rot_acw(rot_acw(rot_acw(m)))) == m,
{
    assert(rot_acw(rot_acw(rot_acw(rot_acw(m)))) =~~= m);
}

/// A quarter turn in either direction keeps the mask a 4×4 grid with a filled
/// cell.
pub proof fn lemma_rot_keeps_block(m: Seq<Seq<bool>>)
    requires
        is_mask(m),
        has_block(m),
    ensures
        is_mask(rot_cw(m)),
        has_block(rot_cw(m)),
        is_mask(rot_acw(m)),
        has_block(rot_acw(m)),
{
    let (r, c) = choose|r: int, c: int| 0 <= r < 4 && 0 <= c < 4 && #[trigger] m[r][c];
    assert(rot_cw(m)[c][3 - r]);
    assert(rot_acw(m)[3 - c][r]);
}

/// Every spawn mask is a 4×4 grid with a filled cell.
pub proof fn lemma_spawn_mask_block(t: TetrominoType)
    ensures
        is_mask(spawn_mask(t)),
        has_block(spawn_mask(t)),
{
    assert(spawn_mask(t)[1][1] || spawn_mask(t)[1][0]);
}

} // verus!
