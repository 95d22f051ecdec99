//! Piece colors, kinds and the moves that the display layer works with.

use vstd::prelude::*;
use crate::board::Coord;

verus! {

/// The two sides of a chess game.
#[derive(Clone, Copy, Debug, PartialEq, Eq, Structural, Hash)]
pub enum PieceColor {
    Black,
    White,
}

impl PieceColor {
    /// The other side.
    pub fn opposite(&self) -> (r: PieceColor)
        ensures
            r != *self,
    {
        match self {
            PieceColor::Black => PieceColor::White,
            PieceColor::White => PieceColor::Black,
        }
    }
}

/// The six kinds of chess pieces.
#[derive(Clone, Copy, Debug, PartialEq, Eq, Structural, Hash)]
pub enum PieceType {
    Pawn,
    Rook,
    Bishop,
    Queen,
    King,
    Knight,
}

/// A move as the board display sees it: which piece went where.
#[derive(Clone, Copy, Debug, PartialEq, Eq, Structural)]
pub struct PieceMove {
    pub piece_type: PieceType,
    pub piece_color: PieceColor,
    pub from: Coord,
    pub to: Coord,
}

} // verus!
