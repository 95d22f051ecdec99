//! What a left click means on a game page, and the checks made before a
//! move chosen with the mouse or the keyboard.
//!
//! The click is read against the board on the screen: the promotion popup
//! while a promotion is to be chosen, otherwise the square under the mouse.
//! What it leads to, a move that may be refused, a selection, a promotion,
//! is handed back as a `ClickPlan` for the application to carry out.

use vstd::prelude::*;
use crate::board::{Coord, flip_square_if_needed, flipped_square};
use crate::chess::{legal_moves_in, piece_on};
use crate::constants::Pages;
use crate::game_logic::game::{Game, GameState, game_ready, shown_coord};
use crate::game_logic::game_board::{GameBoard, targets_from};
use crate::game_logic::ui::{castling_destination, castling_target};
use crate::pieces::{PieceColor, PieceType};

verus! {

/// What is left to do after a click.
#[derive(Clone, Copy, Debug, PartialEq, Eq, Structural)]
pub enum ClickPlan {
    /// Nothing.
    Nothing,
    /// Promote to the piece chosen (0 queen, 1 rook, 2 bishop, 3 knight).
    Promote(i8),
    /// Move the selected piece to the square clicked (as shown), if it can go there.
    Move { to: u8 },
    /// First move the selected king to `castle_to` (as shown), its castling
    /// square, when that is given; failing that, move the selected piece to
    /// `to`; when neither move is made, select the piece on `to`.
    MoveOrSelect { castle_to: Option<u8>, to: u8 },
}

/// The pages where the mouse plays no part: the menus and the credits.
pub open spec fn mouse_off(page: Pages) -> bool {
    page == Pages::GameModeMenu || page == Pages::Home || page == Pages::Credit
}

/// Whether the game is over.
pub open spec fn game_over(st: GameState) -> bool {
    st == GameState::Checkmate || st == GameState::Draw
}

/// Whether a click reaches the promotion popup.
pub open spec fn reaches_promotion(g: Game, page: Pages, popup_shown: bool) -> bool {
    !mouse_off(page) && !game_over(g.logic.game_state) && !popup_shown
        && g.logic.game_state == GameState::Promotion
}

/// The squares the piece on `sq` may move to, as the board lists them:
/// none unless that piece is `turn`'s.
pub open spec fn authorized_from(b: GameBoard, turn: PieceColor, sq: u8) -> Seq<u8> {
    match piece_on(b.shown(), sq) {
        Some(p) => if p.color == turn {
            targets_from(legal_moves_in(b.shown()), sq)
        } else {
            seq![]
        },
        None => seq![],
    }
}

/// Where the selected king castles to (as shown) when the rook on `actual`
/// is clicked: only a king selected, a rook clicked in a corner, and the
/// king's castling square among its moves.
pub open spec fn castle_square(g: Game, selected: u8, actual: u8) -> Option<u8> {
    let b = g.logic.game_board;
    let king = flipped_square(selected, b.is_flipped);
    let role_of = |s: u8| match piece_on(b.shown(), s) {
        Some(p) => Some(p.role),
        None => None,
    };
    if role_of(king) == Some(PieceType::King) && role_of(actual) == Some(PieceType::Rook) {
        match castling_target(actual) {
            Some(dest) => if authorized_from(b, g.logic.player_turn, king).contains(dest) {
                Some(flipped_square(dest, b.is_flipped))
            } else {
                None
            },
            None => None,
        }
    } else {
        None
    }
}

/// A click at `column`, `row` of the screen on `page` (`popup_shown`
/// saying whether a popup is up, `my_color` the player's side in a Lichess
/// game): the game after it and what is left to do.
///
/// Nothing happens on the menus and the credits, once the game is over or
/// while a popup is up. While a promotion is to be chosen the click picks
/// the piece under it in the popup's first row. In a Lichess game it is
/// ignored when the other side is to play. Otherwise the square under it
/// is read (see `UI::board_cell_at`) and the mouse marked as used; a click
/// on an empty square or a piece of the other side moves the selected
/// piece there, a click on one of the player's pieces selects it, or, with
/// a piece selected, tries a castling or a move first.
pub open spec fn after_click(
    g: Game,
    page: Pages,
    popup_shown: bool,
    my_color: Option<PieceColor>,
    column: u16,
    row: u16,
) -> (Game, ClickPlan) {
    let ui = g.ui;
    if mouse_off(page) || game_over(g.logic.game_state) || popup_shown {
        (g, ClickPlan::Nothing)
    } else if g.logic.game_state == GameState::Promotion {
        let x = (column - ui.top_x) / (ui.width as int);
        let y = (row - ui.top_y) / (ui.height as int);
        if x > 3 || y > 0 {
            (g, ClickPlan::Nothing)
        } else {
            (Game { ui: crate::game_logic::ui::UI { promotion_cursor: x as i8, ..ui }, ..g },
                ClickPlan::Promote(x as i8))
        }
    } else if page == Pages::Lichess && my_color is Some && g.logic.player_turn != my_color->0 {
        (g, ClickPlan::Nothing)
    } else if column < ui.top_x || row < ui.top_y || ui.width == 0 || ui.height == 0
        || (column - ui.top_x) / (ui.width as int) > 7 || (row - ui.top_y) / (ui.height as int) > 7 {
        (g, ClickPlan::Nothing)
    } else {
        let x = (column - ui.top_x) / (ui.width as int);
        let y = (row - ui.top_y) / (ui.height as int);
        let sq = ((7 - y) * 8 + x) as u8;
        let g1 = Game { ui: crate::game_logic::ui::UI { mouse_used: true, ..ui }, ..g };
        let b = g.logic.game_board;
        let actual = flipped_square(sq, b.is_flipped);
        match piece_on(b.shown(), actual) {
            None => match ui.selected_square {
                None => (g1, ClickPlan::Nothing),
                Some(_) => (g1, ClickPlan::Move { to: sq }),
            },
            Some(p) => if p.color == g.logic.player_turn {
                match ui.selected_square {
                    None => (Game { ui: crate::game_logic::ui::UI { selected_square: Some(sq), ..g1.ui }, ..g1 },
                        ClickPlan::Nothing),
                    Some(sel) => (g1, ClickPlan::MoveOrSelect { castle_to: castle_square(g, sel, actual), to: sq }),
                }
            } else {
                match ui.selected_square {
                    None => (g1, ClickPlan::Nothing),
                    Some(_) => (g1, ClickPlan::Move { to: sq }),
                }
            },
        }
    }
}

/// Whether `v` holds `x`.
fn holds(v: &Vec<u8>, x: u8) -> (r: bool)
    ensures
        r == v@.contains(x),
{
    let mut i: usize = 0;
    while i < v.len()
        invariant
            i <= v.len(),
            forall|j: int| 0 <= j < i ==> v@[j] != x,
        decreases v.len() - i,
    {
        if v[i] == x {
            return true;
        }
        i += 1;
    }
    false
}

impl Game {
    /// Where the selected king castles to when the rook on `actual` is
    /// clicked (see `castle_square`).
    fn castle_target(&self, selected: u8, actual: u8) -> (r: Option<u8>)
        requires
            game_ready(*self),
            selected < 64,
            actual < 64,
        ensures
            r == castle_square(*self, selected, actual),
    {
        let b = &self.logic.game_board;
        let king = flip_square_if_needed(selected, b.is_flipped);
        if b.get_role_at_square(king) == Some(PieceType::King) && b.get_role_at_square(actual) == Some(PieceType::Rook) {
            match castling_destination(actual) {
                Some(dest) => {
                    let moves = b.get_authorized_positions(self.logic.player_turn, king);
                    if holds(&moves, dest) {
                        Some(flip_square_if_needed(dest, b.is_flipped))
                    } else {
                        None
                    }
                },
                None => None,
            }
        } else {
            None
        }
    }

    /// Handles a left click at `column`, `row` of the screen (see
    /// `after_click`). While a promotion is to be chosen the click must lie
    /// right of and below the top-left corner of the popup, whose cells
    /// have a size.
    pub fn handle_mouse_click(
        &mut self,
        page: Pages,
        popup_shown: bool,
        my_color: Option<PieceColor>,
        column: u16,
        row: u16,
    ) -> (r: ClickPlan)
        requires
            game_ready(*old(self)),
            reaches_promotion(*old(self), page, popup_shown) ==> column >= old(self).ui.top_x
                && row >= old(self).ui.top_y && old(self).ui.width > 0 && old(self).ui.height > 0,
        ensures
            (*final(self), r) == after_click(*old(self), page, popup_shown, my_color, column, row),
    {
        if page == Pages::GameModeMenu || page == Pages::Home || page == Pages::Credit {
            return ClickPlan::Nothing;
        }
        let st = self.logic.game_state;
        if st == GameState::Checkmate || st == GameState::Draw || popup_shown {
            return ClickPlan::Nothing;
        }
        if st == GameState::Promotion {
            return match self.ui.promotion_choice_at(column, row) {
                Some(x) => {
                    self.ui.promotion_cursor = x;
                    ClickPlan::Promote(x)
                },
                None => ClickPlan::Nothing,
            };
        }
        if page == Pages::Lichess {
            if let Some(mine) = my_color {
                if self.logic.player_turn != mine {
                    return ClickPlan::Nothing;
                }
            }
        }
        let cell: Coord = match self.ui.board_cell_at(column, row) {
            Some(c) => c,
            None => return ClickPlan::Nothing,
        };
        self.ui.mouse_used = true;
        let sq: u8 = (7 - cell.row) * 8 + cell.col;
        let actual = flip_square_if_needed(sq, self.logic.game_board.is_flipped);
        match self.logic.game_board.get_piece_color_at_square(actual) {
            None => match self.ui.selected_square {
                None => ClickPlan::Nothing,
                Some(_) => ClickPlan::Move { to: sq },
            },
            Some(color) => if color == self.logic.player_turn {
                match self.ui.selected_square {
                    None => {
                        self.ui.selected_square = Some(sq);
                        ClickPlan::Nothing
                    },
                    Some(sel) => {
                        let castle_to = self.castle_target(sel, actual);
                        ClickPlan::MoveOrSelect { castle_to, to: sq }
                    },
                }
            } else {
                match self.ui.selected_square {
                    None => ClickPlan::Nothing,
                    Some(_) => ClickPlan::Move { to: sq },
                }
            },
        }
    }
}

/// Whether the selected piece may go to `target` (as shown): it is among
/// the squares the piece on the selected square may move to, both read on
/// the board as it is turned.
pub open spec fn selected_reaches(g: Game, target: u8) -> bool {
    let b = g.logic.game_board;
    match g.ui.selected_square {
        None => false,
        Some(sel) => authorized_from(b, g.logic.player_turn, flipped_square(sel, b.is_flipped)).contains(
            flipped_square(target, b.is_flipped),
        ),
    }
}

/// Whether a select-or-move key is refused because it is the other side's
/// turn: in a Lichess game, or in a networked game over TCP, once the
/// player's side is known.
pub open spec fn cell_click_refused(g: Game, page: Pages, my_color: Option<PieceColor>) -> bool {
    match my_color {
        None => false,
        Some(c) => if page == Pages::Lichess {
            g.logic.player_turn != c
        } else if page == Pages::Multiplayer {
            (g.logic.opponent matches Some(o) && o.kind matches Some(crate::game_logic::opponent::OpponentKind::Tcp))
                && g.logic.player_turn != c
        } else {
            false
        },
    }
}

/// The move a click is about to make in a puzzle, read before it is made:
/// from the selected square to the square under the cursor, both turned
/// round with the board, when the piece may go there.
pub open spec fn pending_puzzle_move(g: Game, in_puzzle: bool) -> Option<(u8, u8)> {
    let b = g.logic.game_board;
    let cur = g.ui.cursor_coordinates;
    match g.ui.selected_square {
        Some(sel) => if in_puzzle {
            let to = flipped_square(((7 - cur.row) * 8 + cur.col) as u8, b.is_flipped);
            let from = flipped_square(sel, b.is_flipped);
            if authorized_from(b, g.logic.player_turn, from).contains(to) {
                Some((from, to))
            } else {
                None
            }
        } else {
            None
        },
        None => None,
    }
}

impl Game {
    /// Whether the selected piece may go to `target`, a square as shown
    /// (see `selected_reaches`): the check before a move made with the
    /// mouse.
    pub fn can_move_selected_to(&self, target: u8) -> (r: bool)
        requires
            game_ready(*self),
            target < 64,
        ensures
            r == selected_reaches(*self, target),
    {
        match self.ui.selected_square {
            None => false,
            Some(sel) => {
                let b = &self.logic.game_board;
                let moves = b.get_authorized_positions(self.logic.player_turn, flip_square_if_needed(sel, b.is_flipped));
                holds(&moves, flip_square_if_needed(target, b.is_flipped))
            },
        }
    }

    /// Whether a select-or-move key is refused (see `cell_click_refused`).
    pub fn cell_click_blocked(&self, page: Pages, my_color: Option<PieceColor>) -> (r: bool)
        ensures
            r == cell_click_refused(*self, page, my_color),
    {
        match my_color {
            None => false,
            Some(c) => if page == Pages::Lichess {
                self.logic.player_turn != c
            } else if page == Pages::Multiplayer {
                match &self.logic.opponent {
                    Some(o) => o.is_tcp_multiplayer() && self.logic.player_turn != c,
                    None => false,
                }
            } else {
                false
            },
        }
    }

    /// The puzzle move a click is about to make (see `pending_puzzle_move`).
    /// With a piece selected in a puzzle, the cursor is on the board.
    pub fn puzzle_move_info(&self, in_puzzle: bool) -> (r: Option<(u8, u8)>)
        requires
            game_ready(*self),
            in_puzzle && self.ui.selected_square is Some ==> self.ui.cursor_coordinates.row < 8
                && self.ui.cursor_coordinates.col < 8,
        ensures
            r == pending_puzzle_move(*self, in_puzzle),
    {
        match self.ui.selected_square {
            Some(sel) => if in_puzzle {
                let b = &self.logic.game_board;
                let cur = self.ui.cursor_coordinates;
                let to = flip_square_if_needed((7 - cur.row) * 8 + cur.col, b.is_flipped);
                let from = flip_square_if_needed(sel, b.is_flipped);
                let moves = b.get_authorized_positions(self.logic.player_turn, from);
                if holds(&moves, to) {
                    Some((from, to))
                } else {
                    None
                }
            } else {
                None
            },
            None => None,
        }
    }

    /// A key after the mouse was used: the keyboard takes over. The cursor
    /// goes to the piece selected with the mouse, which is deselected, or
    /// to the middle of the board when none is; nothing changes when the
    /// mouse was not used.
    pub fn keyboard_takes_over(&mut self)
        requires
            old(self).ui.selected_square matches Some(s) ==> s < 64,
        ensures
            *final(self) == (if !old(self).ui.mouse_used {
                *old(self)
            } else {
                Game {
                    ui: crate::game_logic::ui::UI {
                        mouse_used: false,
                        selected_square: None,
                        cursor_coordinates: match old(self).ui.selected_square {
                            Some(s) => shown_coord(s, old(self).logic.game_board.is_flipped),
                            None => Coord { row: 4, col: 4 },
                        },
                        ..old(self).ui
                    },
                    ..*old(self)
                }
            }),
    {
        if self.ui.mouse_used {
            self.ui.mouse_used = false;
            match self.ui.selected_square {
                Some(sq) => {
                    self.ui.cursor_coordinates = Coord::from_square(flip_square_if_needed(sq, self.logic.game_board.is_flipped));
                    self.ui.selected_square = None;
                },
                None => {
                    self.ui.cursor_coordinates.col = 4;
                    self.ui.cursor_coordinates.row = 4;
                },
            }
        }
    }
}

} // verus!
