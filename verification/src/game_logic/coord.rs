//! A square of the chess board as (row, col), always on the board.
//!
//! Row 0 is the eighth rank and row 7 the first; col 0 is the a-file.
//! Squares are also numbered the usual way, a1 = 0 ... h8 = 63, and the two
//! numberings convert into each other.

use vstd::prelude::*;

verus! {

/// A coordinate on the chess board; both components are always in 0..=7.
#[derive(Debug, Clone, Copy, PartialEq, Eq, Structural, Hash, PartialOrd, Ord)]
pub struct Coord {
    row: u8,
    col: u8,
}

/// The four directions the keyboard cursor can be moved in.
pub enum MoveDirection {
    Up,
    Down,
    Left,
    Right,
}

/// The smaller of `x` and 7.
pub open spec fn clamp7(x: int) -> int {
    if x < 7 { x } else { 7 }
}

/// Row of the square with the given index (a1 = 0 ... h8 = 63).
pub open spec fn index_row(index: int) -> int {
    7 - index / 8
}

/// Column of the square with the given index.
pub open spec fn index_col(index: int) -> int {
    index % 8
}

/// Index of the square at (row, col).
pub open spec fn square_index_of(row: int, col: int) -> int {
    (7 - row) * 8 + col
}

impl Coord {
    #[verifier::type_invariant]
    spec fn on_board(self) -> bool {
        self.row <= 7 && self.col <= 7
    }

    /// The row of this coordinate.
    pub closed spec fn row_spec(self) -> int {
        self.row as int
    }

    /// The column of this coordinate.
    pub closed spec fn col_spec(self) -> int {
        self.col as int
    }

    /// Both components lie on the board; every coordinate that exists at
    /// run time satisfies this.
    pub open spec fn valid(self) -> bool {
        0 <= self.row_spec() <= 7 && 0 <= self.col_spec() <= 7
    }

    /// Two coordinates are the same exactly when their rows and columns are.
    pub proof fn lemma_ext_eq(a: Coord, b: Coord)
        ensures
            (a == b) <==> (a.row_spec() == b.row_spec() && a.col_spec() == b.col_spec()),
    {
    }

    /// Builds a coordinate, clamping each component to the board.
    pub fn new(row: u8, col: u8) -> (r: Coord)
        ensures
            r.valid(),
            r.row_spec() == clamp7(row as int),
            r.col_spec() == clamp7(col as int),
    {
        let row = if row < 7 { row } else { 7 };
        let col = if col < 7 { col } else { 7 };
        Coord { row, col }
    }

    /// The row, 0 being the eighth rank.
    pub fn row(&self) -> (r: u8)
        ensures
            r == self.row_spec(),
            r <= 7,
            self.valid(),
    {
        proof { use_type_invariant(self); }
        self.row
    }

    /// The column, 0 being the a-file.
    pub fn col(&self) -> (r: u8)
        ensures
            r == self.col_spec(),
            r <= 7,
            self.valid(),
    {
        proof { use_type_invariant(self); }
        self.col
    }

    /// Moves one step in `direction`, staying on the board at the edges.
    pub fn move_to(&mut self, direction: MoveDirection)
        ensures
            old(self).valid(),
            final(self).valid(),
            match direction {
                MoveDirection::Up => final(self).row_spec() == (if old(self).row_spec() > 0 {
                    old(self).row_spec() - 1
                } else {
                    0
                }) && final(self).col_spec() == old(self).col_spec(),
                MoveDirection::Down => final(self).row_spec() == clamp7(old(self).row_spec() + 1)
                    && final(self).col_spec() == old(self).col_spec(),
                MoveDirection::Left => final(self).col_spec() == (if old(self).col_spec() > 0 {
                    old(self).col_spec() - 1
                } else {
                    0
                }) && final(self).row_spec() == old(self).row_spec(),
                MoveDirection::Right => final(self).col_spec() == clamp7(old(self).col_spec() + 1)
                    && final(self).row_spec() == old(self).row_spec(),
            },
    {
        proof { use_type_invariant(&*self); }
        let row = self.row;
        let col = self.col;
        let (new_row, new_col) = match direction {
            MoveDirection::Up => (if row > 0 { row - 1 } else { 0 }, col),
            MoveDirection::Down => (if row < 7 { row + 1 } else { 7 }, col),
            MoveDirection::Left => (row, if col > 0 { col - 1 } else { 0 }),
            MoveDirection::Right => (row, if col < 7 { col + 1 } else { 7 }),
        };
        *self = Coord { row: new_row, col: new_col };
    }

    /// The same square seen from the other side of the board.
    pub fn reverse(&self) -> (r: Coord)
        ensures
            r.valid(),
            self.valid(),
            r.row_spec() == 7 - self.row_spec(),
            r.col_spec() == 7 - self.col_spec(),
    {
        proof { use_type_invariant(self); }
        Coord { row: 7 - self.row, col: 7 - self.col }
    }

    /// The coordinate of the square with the given index (a1 = 0 ... h8 = 63).
    pub fn from_square_index(index: u8) -> (r: Coord)
        requires
            index < 64,
        ensures
            r.valid(),
            r.row_spec() == index_row(index as int),
            r.col_spec() == index_col(index as int),
    {
        Coord { row: 7 - index / 8, col: index % 8 }
    }

    /// The index of this square (a1 = 0 ... h8 = 63).
    pub fn to_square_index(&self) -> (r: u8)
        ensures
            self.valid(),
            r == square_index_of(self.row_spec(), self.col_spec()),
            r < 64,
    {
        proof { use_type_invariant(self); }
        (7 - self.row) * 8 + self.col
    }
}

impl Default for Coord {
    /// The centre of the board, (4, 4).
    fn default() -> (r: Coord)
        ensures
            r.valid(),
            r.row_spec() == 4,
            r.col_spec() == 4,
    {
        Coord::new(4, 4)
    }
}

/// Converting a coordinate to its square index and back gives it again.
pub proof fn lemma_coord_square_round_trip(c: Coord)
    requires
        c.valid(),
    ensures
        index_row(square_index_of(c.row_spec(), c.col_spec())) == c.row_spec(),
        index_col(square_index_of(c.row_spec(), c.col_spec())) == c.col_spec(),
        0 <= square_index_of(c.row_spec(), c.col_spec()) < 64,
{
    let r = c.row_spec();
    let k = c.col_spec();
    assert(((7 - r) * 8 + k) / 8 == 7 - r) by (nonlinear_arith)
        requires 0 <= r <= 7, 0 <= k <= 7;
    assert(((7 - r) * 8 + k) % 8 == k) by (nonlinear_arith)
        requires 0 <= r <= 7, 0 <= k <= 7;
}

/// Converting a square index to a coordinate and back gives it again.
pub proof fn lemma_square_coord_round_trip(index: int)
    requires
        0 <= index < 64,
    ensures
        square_index_of(index_row(index), index_col(index)) == index,
        0 <= index_row(index) <= 7,
        0 <= index_col(index) <= 7,
{
}

/// Reversing a coordinate twice gives it back.
pub proof fn lemma_reverse_involution(c: Coord)
    requires
        c.valid(),
    ensures
        7 - (7 - c.row_spec()) == c.row_spec(),
        7 - (7 - c.col_spec()) == c.col_spec(),
        0 <= 7 - c.row_spec() <= 7,
        0 <= 7 - c.col_spec() <= 7,
{
}

} // verus!
