//! Which side of the board is shown at the bottom, and the coordinate
//! transformations between the logical board and what is displayed.

use vstd::prelude::*;
use crate::board::{Coord, on_board};
use crate::pieces::{PieceColor, PieceMove};

verus! {

/// The perspective from which the board is viewed.
#[derive(Clone, Copy, Debug, PartialEq, Eq, Structural)]
pub enum PlayerPerspective {
    /// White pieces at the bottom: board coordinates match display coordinates.
    White,
    /// Black pieces at the bottom: board coordinates are mirrored for display.
    Black,
}

/// The perspective that shows `color` at the bottom.
pub open spec fn perspective_of(color: PieceColor) -> PlayerPerspective {
    match color {
        PieceColor::White => PlayerPerspective::White,
        PieceColor::Black => PlayerPerspective::Black,
    }
}

/// The other perspective.
pub open spec fn opposite_of(p: PlayerPerspective) -> PlayerPerspective {
    match p {
        PlayerPerspective::White => PlayerPerspective::Black,
        PlayerPerspective::Black => PlayerPerspective::White,
    }
}

/// The displayed coordinate of a logical one (and back: the map is its own
/// inverse). Coordinates off the board are left alone.
pub open spec fn flip_coord(flipped: bool, c: Coord) -> Coord {
    if !on_board(c.row as int, c.col as int) || !flipped {
        c
    } else {
        Coord { row: (7 - c.row) as u8, col: (7 - c.col) as u8 }
    }
}

/// A move with both of its squares passed through `flip_coord`.
pub open spec fn flip_move(flipped: bool, m: PieceMove) -> PieceMove {
    PieceMove { from: flip_coord(flipped, m.from), to: flip_coord(flipped, m.to), ..m }
}

impl PlayerPerspective {
    /// The perspective for a given player color.
    pub fn for_player(player_color: PieceColor) -> (r: PlayerPerspective)
        ensures
            r == perspective_of(player_color),
    {
        match player_color {
            PieceColor::White => PlayerPerspective::White,
            PieceColor::Black => PlayerPerspective::Black,
        }
    }

    /// The opposite perspective.
    pub fn opposite(self) -> (r: PlayerPerspective)
        ensures
            r == opposite_of(self),
    {
        match self {
            PlayerPerspective::White => PlayerPerspective::Black,
            PlayerPerspective::Black => PlayerPerspective::White,
        }
    }
}

/// Holds the current perspective and converts coordinates for it.
#[derive(Clone, Copy, Debug)]
pub struct PerspectiveManager {
    /// The perspective from which the board is currently viewed.
    pub current_perspective: PlayerPerspective,
    /// The color of the human player (sets the default perspective).
    pub player_color: PieceColor,
}

impl PerspectiveManager {
    /// Whether coordinates are mirrored for display in this manager.
    pub open spec fn flipped(&self) -> bool {
        self.current_perspective == PlayerPerspective::Black
    }

    /// A manager for `player_color`, viewing from that color's side.
    pub fn new(player_color: PieceColor) -> (r: PerspectiveManager)
        ensures
            r.current_perspective == perspective_of(player_color),
            r.player_color == player_color,
    {
        PerspectiveManager {
            current_perspective: PlayerPerspective::for_player(player_color),
            player_color,
        }
    }

    /// A manager viewing from White's side (local games).
    pub fn white_perspective() -> (r: PerspectiveManager)
        ensures
            r.current_perspective == PlayerPerspective::White,
            r.player_color == PieceColor::White,
    {
        PerspectiveManager {
            current_perspective: PlayerPerspective::White,
            player_color: PieceColor::White,
        }
    }

    /// Sets the player color and views from that color's side.
    pub fn set_perspective_for_player(&mut self, player_color: PieceColor)
        ensures
            final(self).player_color == player_color,
            final(self).current_perspective == perspective_of(player_color),
    {
        self.player_color = player_color;
        self.current_perspective = PlayerPerspective::for_player(player_color);
    }

    /// Switches to the other perspective, keeping the player color.
    pub fn toggle_perspective(&mut self)
        ensures
            final(self).current_perspective == opposite_of(old(self).current_perspective),
            final(self).player_color == old(self).player_color,
    {
        self.current_perspective = self.current_perspective.opposite();
    }

    /// Whether coordinates have to be mirrored for display.
    pub fn needs_transformation(&self) -> (r: bool)
        ensures
            r == self.flipped(),
    {
        self.current_perspective == PlayerPerspective::Black
    }

    /// The displayed position of a logical coordinate.
    pub fn logical_to_display(&self, coord: Coord) -> (r: Coord)
        ensures
            r == flip_coord(self.flipped(), coord),
    {
        if !coord.is_valid() {
            return coord;
        }
        if self.needs_transformation() {
            Coord::new(7 - coord.row, 7 - coord.col)
        } else {
            coord
        }
    }

    /// The logical position of a displayed coordinate.
    pub fn display_to_logical(&self, coord: Coord) -> (r: Coord)
        ensures
            r == flip_coord(self.flipped(), coord),
    {
        if !coord.is_valid() {
            return coord;
        }
        if self.needs_transformation() {
            Coord::new(7 - coord.row, 7 - coord.col)
        } else {
            coord
        }
    }

    /// A move in logical coordinates, converted to display coordinates.
    pub fn transform_move_for_display(&self, piece_move: &PieceMove) -> (r: PieceMove)
        ensures
            r == flip_move(self.flipped(), *piece_move),
    {
        if self.needs_transformation() {
            PieceMove {
                piece_type: piece_move.piece_type,
                piece_color: piece_move.piece_color,
                from: self.logical_to_display(piece_move.from),
                to: self.logical_to_display(piece_move.to),
            }
        } else {
            *piece_move
        }
    }

    /// A move in display coordinates, converted to logical coordinates.
    pub fn transform_move_for_logic(&self, piece_move: &PieceMove) -> (r: PieceMove)
        ensures
            r == flip_move(self.flipped(), *piece_move),
    {
        if self.needs_transformation() {
            PieceMove {
                piece_type: piece_move.piece_type,
                piece_color: piece_move.piece_color,
                from: self.display_to_logical(piece_move.from),
                to: self.display_to_logical(piece_move.to),
            }
        } else {
            *piece_move
        }
    }

    /// The perspective a game mode starts with: the player's own side in
    /// multiplayer and bot games, White's side in local games.
    pub fn get_mode_perspective(
        player_color: PieceColor,
        is_bot_game: bool,
        is_multiplayer: bool,
    ) -> (r: PlayerPerspective)
        ensures
            r == (if is_multiplayer || is_bot_game {
                perspective_of(player_color)
            } else {
                PlayerPerspective::White
            }),
    {
        if is_multiplayer {
            PlayerPerspective::for_player(player_color)
        } else if is_bot_game {
            PlayerPerspective::for_player(player_color)
        } else {
            PlayerPerspective::White
        }
    }
}

impl Default for PerspectiveManager {
    /// The White-side manager.
    fn default() -> (r: PerspectiveManager)
        ensures
            r.current_perspective == PlayerPerspective::White,
            r.player_color == PieceColor::White,
    {
        Self::white_perspective()
    }
}

/// Converting to display coordinates and back gives the logical coordinate
/// again, whatever the perspective.
pub proof fn lemma_display_round_trip(flipped: bool, c: Coord)
    ensures
        flip_coord(flipped, flip_coord(flipped, c)) == c,
{
}

/// The same holds for moves.
pub proof fn lemma_move_display_round_trip(flipped: bool, m: PieceMove)
    ensures
        flip_move(flipped, flip_move(flipped, m)) == m,
{
    lemma_display_round_trip(flipped, m.from);
    lemma_display_round_trip(flipped, m.to);
}

/// Toggling twice returns to the original perspective.
pub proof fn lemma_toggle_twice(p: PlayerPerspective)
    ensures
        opposite_of(opposite_of(p)) == p,
{
}

/// Coordinates on the board stay on the board when displayed.
pub proof fn lemma_display_keeps_on_board(flipped: bool, c: Coord)
    requires
        on_board(c.row as int, c.col as int),
    ensures
        on_board(flip_coord(flipped, c).row as int, flip_coord(flipped, c).col as int),
{
}

} // verus!
