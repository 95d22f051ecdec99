//! Board coordinates in (row, col) form, where row 0 is the eighth rank as
//! seen by White and column 0 is the a-file.

use vstd::prelude::*;

verus! {

/// Sentinel value meaning "no board position set".
pub const UNDEFINED_POSITION: u8 = 255u8;

/// A coordinate that may also hold the "undefined" sentinel.
#[derive(Clone, Copy, Debug, PartialEq, Eq, Structural, PartialOrd, Ord)]
pub struct Coord {
    /// rank, horizontal row, line, y axis
    pub row: u8,
    /// file, vertical column, x axis
    pub col: u8,
}

/// A coordinate lies on the board when both components are below 8.
pub open spec fn on_board(row: int, col: int) -> bool {
    0 <= row < 8 && 0 <= col < 8
}

impl Coord {
    /// Builds a coordinate from its two components, as given.
    pub fn new(row: u8, col: u8) -> (r: Coord)
        ensures
            r.row == row,
            r.col == col,
    {
        Coord { row, col }
    }

    /// Builds a coordinate only when both components fit in a byte and lie
    /// on the board.
    pub fn opt_new(row: i64, col: i64) -> (r: Option<Coord>)
        ensures
            r is Some <==> on_board(row as int, col as int),
            r matches Some(c) ==> c.row == row && c.col == col,
    {
        if 0 <= row && row < 8 && 0 <= col && col < 8 {
            Some(Coord { row: row as u8, col: col as u8 })
        } else {
            None
        }
    }

    /// The not-yet-set position, to be set before it is used.
    pub fn undefined() -> (r: Coord)
        ensures
            r.row == UNDEFINED_POSITION,
            r.col == UNDEFINED_POSITION,
    {
        Coord { row: UNDEFINED_POSITION, col: UNDEFINED_POSITION }
    }

    /// The coordinate of square `sq` (a1 = 0 ... h8 = 63) as seen by White.
    pub fn from_square(sq: u8) -> (r: Coord)
        requires
            sq < 64,
        ensures
            r.row == 7 - sq / 8,
            r.col == sq % 8,
    {
        Coord { row: 7 - sq / 8, col: sq % 8 }
    }

    /// The square (a1 = 0 ... h8 = 63) this coordinate shows from White's
    /// side, when it is on the board.
    pub fn to_square(&self) -> (r: Option<u8>)
        ensures
            r == (if on_board(self.row as int, self.col as int) {
                Some(((7 - self.row) * 8 + self.col) as u8)
            } else {
                None
            }),
    {
        if self.row < 8 && self.col < 8 {
            Some((7 - self.row) * 8 + self.col)
        } else {
            None
        }
    }

    /// Whether this coordinate is on the chess board.
    pub fn is_valid(&self) -> (r: bool)
        ensures
            r == on_board(self.row as int, self.col as int),
    {
        self.col < 8 && self.row < 8
    }
}

/// The square as seen from the other side when the board is flipped.
pub open spec fn flipped_square(sq: u8, is_flipped: bool) -> u8 {
    if is_flipped {
        (63 - sq) as u8
    } else {
        sq
    }
}

/// Turns a square round when the board is flipped.
pub fn flip_square_if_needed(sq: u8, is_flipped: bool) -> (r: u8)
    requires
        sq < 64,
    ensures
        r == flipped_square(sq, is_flipped),
        r < 64,
{
    if is_flipped {
        63 - sq
    } else {
        sq
    }
}

/// Flipping twice gives the square back.
pub proof fn lemma_flip_square_twice(sq: u8, is_flipped: bool)
    requires
        sq < 64,
    ensures
        flipped_square(flipped_square(sq, is_flipped), is_flipped) == sq,
{
}

} // verus!
