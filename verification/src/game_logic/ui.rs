//! The state of the board view: the cursor, the selected piece, the
//! promotion popup and the cursor blink. Drawing it is the application's
//! part.

use vstd::prelude::*;
use vstd::relations::{sorted_by, total_ordering};
use crate::board::{Coord, UNDEFINED_POSITION, flip_square_if_needed, flipped_square};
use crate::constants::DisplayMode;
use crate::chess::{in_check, king_square, move_from, move_to, side_to_move, turn};
use crate::game_logic::game::{GameLogic, own_targets};
use crate::game_logic::game_board::GameBoard;
use crate::pieces::PieceColor;

verus! {

/// Board coordinates in reading order: by row, then by column.
pub open spec fn coord_leq() -> spec_fn(Coord, Coord) -> bool {
    |a: Coord, b: Coord| a.row < b.row || (a.row == b.row && a.col <= b.col)
}

/// The reading order of coordinates is a total order.
pub proof fn lemma_coord_leq_total()
    ensures
        total_ordering(coord_leq()),
{
    let leq = coord_leq();
    assert forall|a: Coord, b: Coord| #[trigger] leq(a, b) && #[trigger] leq(b, a) implies a == b by {
        assert(a.row == b.row && a.col == b.col);
    }
}

/// `v` in reading order.
pub fn sort_coords(v: &Vec<Coord>) -> (r: Vec<Coord>)
    ensures
        r@ == v@.sort_by(coord_leq()),
        r@.len() == v@.len(),
{
    let ghost leq = coord_leq();
    let mut out: Vec<Coord> = Vec::new();
    let mut k: usize = 0;
    proof {
        broadcast use vstd::seq_lib::group_to_multiset_ensures;
        assert(v@.subrange(0, 0) =~= out@);
    }
    while k < v.len()
        invariant
            k <= v.len(),
            leq == coord_leq(),
            sorted_by(out@, leq),
            out@.to_multiset() == v@.subrange(0, k as int).to_multiset(),
        decreases v.len() - k,
    {
        let x = v[k];
        let mut i: usize = 0;
        while i < out.len() && (out[i].row < x.row || (out[i].row == x.row && out[i].col <= x.col))
            invariant
                i <= out.len(),
                leq == coord_leq(),
                forall|j: int| 0 <= j < i ==> leq(#[trigger] out@[j], x),
            decreases out.len() - i,
        {
            i += 1;
        }
        let ghost before = out@;
        out.insert(i, x);
        proof {
            broadcast use vstd::seq_lib::group_to_multiset_ensures;
            assert forall|a: int, b: int| 0 <= a < b < out@.len() implies #[trigger] leq(out@[a], out@[b]) by {
                if b < i {
                    assert(out@[a] == before[a] && out@[b] == before[b]);
                } else if b == i {
                    assert(out@[a] == before[a]);
                } else if a == i {
                    assert(out@[b] == before[b - 1]);
                    if i < before.len() {
                        assert(!leq(before[i as int], x));
                        assert(leq(before[i as int], before[b - 1]) || i == b - 1);
                    }
                } else if a < i {
                    assert(out@[a] == before[a] && out@[b] == before[b - 1]);
                } else {
                    assert(out@[a] == before[a - 1] && out@[b] == before[b - 1]);
                }
            }
            assert(before == before.subrange(0, i as int) + before.subrange(i as int, before.len() as int));
            assert(out@ =~= before.subrange(0, i as int) + seq![x] + before.subrange(i as int, before.len() as int));
            vstd::seq_lib::lemma_multiset_commutative(before.subrange(0, i as int), seq![x]);
            assert(v@.subrange(0, k as int + 1) =~= v@.subrange(0, k as int).push(x));
            assert(out@.to_multiset() =~= before.to_multiset().insert(x));
        }
        k += 1;
    }
    proof {
        lemma_coord_leq_total();
        assert(v@.subrange(0, v@.len() as int) =~= v@);
        v@.lemma_sort_by_ensures(leq);
        vstd::seq_lib::lemma_sorted_unique(out@, v@.sort_by(leq), leq);
        broadcast use vstd::seq_lib::group_to_multiset_ensures;
        assert(out@.to_multiset().len() == v@.to_multiset().len());
    }
    out
}

/// Rust's remainder, which takes the sign of `a`.
pub open spec fn trunc_rem(a: int, n: int) -> int {
    if a >= 0 {
        a % n
    } else {
        -((-a) % n)
    }
}

/// The selected-piece cursor after a move of `direction` among `n`
/// targets: it stays on the first target the first time, and otherwise
/// steps round, going from the first target back to the last.
pub open spec fn next_piece_cursor(cursor: int, direction: int, first_time: bool, n: int) -> int {
    if cursor == 0 && first_time {
        0
    } else {
        let r = trunc_rem(cursor + direction, n);
        if r == -1 {
            n - 1
        } else {
            r
        }
    }
}

/// Whether a move of the selected-piece cursor stays within `i8`.
pub open spec fn piece_cursor_fits(cursor: int, direction: int, first_time: bool) -> bool {
    (cursor == 0 && first_time) || (-128 <= cursor + direction <= 127)
}

/// The view of the board and its cursors.
#[derive(Clone, Copy, Debug)]
pub struct UI {
    /// The cursor position.
    pub cursor_coordinates: Coord,
    /// The square of the selected piece, as shown.
    pub selected_square: Option<u8>,
    /// Which of the selected piece's targets the cursor is on.
    pub selected_piece_cursor: i8,
    /// The cursor of the promotion popup.
    pub promotion_cursor: i8,
    /// Where the cursor was before a piece was selected.
    pub old_cursor_position: Coord,
    /// The top-left corner of the interactive part of the screen.
    pub top_x: u16,
    pub top_y: u16,
    /// The size of a selectable cell.
    pub width: u16,
    pub height: u16,
    /// Whether the last move was made with the mouse.
    pub mouse_used: bool,
    /// The piece rendering style.
    pub display_mode: DisplayMode,
    /// Whether the cursor cell is shown in the current blink phase.
    pub cursor_blink_visible: bool,
    /// Ticks since the last blink toggle.
    pub cursor_blink_counter: u8,
}

impl UI {
    /// The state after `reset`: the cursor in the middle of the board,
    /// nothing selected, no cursor saved, no screen area, visible cursor.
    pub open spec fn is_fresh(&self) -> bool {
        &&& self.cursor_coordinates == Coord { row: 4, col: 4 }
        &&& self.selected_square is None
        &&& self.selected_piece_cursor == 0
        &&& self.promotion_cursor == 0
        &&& self.old_cursor_position == Coord { row: UNDEFINED_POSITION, col: UNDEFINED_POSITION }
        &&& self.top_x == 0 && self.top_y == 0 && self.width == 0 && self.height == 0
        &&& !self.mouse_used
        &&& self.cursor_blink_visible
        &&& self.cursor_blink_counter == 0
    }
}

impl Default for UI {
    /// A fresh view in the built-in display mode.
    fn default() -> (r: UI)
        ensures
            r.is_fresh(),
            r.display_mode == DisplayMode::DEFAULT,
    {
        UI {
            cursor_coordinates: Coord::new(4, 4),
            selected_square: None,
            selected_piece_cursor: 0,
            promotion_cursor: 0,
            old_cursor_position: Coord::undefined(),
            top_x: 0,
            top_y: 0,
            width: 0,
            height: 0,
            mouse_used: false,
            display_mode: DisplayMode::DEFAULT,
            cursor_blink_visible: true,
            cursor_blink_counter: 0,
        }
    }
}

impl UI {
    /// Back to a fresh view; the display mode stays.
    pub fn reset(&mut self)
        ensures
            final(self).is_fresh(),
            final(self).display_mode == old(self).display_mode,
    {
        self.cursor_coordinates = Coord::new(4, 4);
        self.selected_square = None;
        self.selected_piece_cursor = 0;
        self.promotion_cursor = 0;
        self.old_cursor_position = Coord::undefined();
        self.top_x = 0;
        self.top_y = 0;
        self.width = 0;
        self.height = 0;
        self.mouse_used = false;
        self.cursor_blink_visible = true;
        self.cursor_blink_counter = 0;
    }

    /// One tick of the cursor blink: while a piece is selected the cursor
    /// cell toggles every second tick; otherwise it stays visible.
    pub fn update_cursor_blink(&mut self)
        ensures
            ({
                let c = (old(self).cursor_blink_counter + 1) % 256;
                if old(self).selected_square is Some {
                    if c >= 2 {
                        final(self).cursor_blink_visible == !old(self).cursor_blink_visible
                            && final(self).cursor_blink_counter == 0
                    } else {
                        final(self).cursor_blink_visible == old(self).cursor_blink_visible
                            && final(self).cursor_blink_counter == c
                    }
                } else {
                    final(self).cursor_blink_visible && final(self).cursor_blink_counter == 0
                }
            }),
            final(self).cursor_coordinates == old(self).cursor_coordinates,
            final(self).selected_square == old(self).selected_square,
            final(self).selected_piece_cursor == old(self).selected_piece_cursor,
            final(self).promotion_cursor == old(self).promotion_cursor,
            final(self).old_cursor_position == old(self).old_cursor_position,
    {
        if self.is_cell_selected() {
            self.cursor_blink_counter = self.cursor_blink_counter.wrapping_add(1);
            if self.cursor_blink_counter >= 2 {
                self.cursor_blink_visible = !self.cursor_blink_visible;
                self.cursor_blink_counter = 0;
            }
        } else {
            self.cursor_blink_visible = true;
            self.cursor_blink_counter = 0;
        }
    }

    /// Whether a piece is selected.
    pub fn is_cell_selected(&self) -> (r: bool)
        ensures
            r == self.selected_square is Some,
    {
        self.selected_square.is_some()
    }

    /// Moves the selected-piece cursor by `direction` among the targets
    /// (see `next_piece_cursor`) and puts the cursor on that target, the
    /// targets taken in reading order; a cursor outside them leaves the
    /// cursor where it was. With no target the cursor becomes undefined.
    pub fn move_selected_piece_cursor(
        &mut self,
        first_time_moving: bool,
        direction: i8,
        authorized_positions: Vec<Coord>,
    )
        requires
            authorized_positions@.len() < 128,
            piece_cursor_fits(old(self).selected_piece_cursor as int, direction as int, first_time_moving),
        ensures
            authorized_positions@.len() == 0 ==> *final(self) == (UI {
                cursor_coordinates: Coord { row: UNDEFINED_POSITION, col: UNDEFINED_POSITION },
                ..*old(self)
            }),
            authorized_positions@.len() > 0 ==> {
                let n = authorized_positions@.len() as int;
                let c = next_piece_cursor(old(self).selected_piece_cursor as int, direction as int, first_time_moving, n);
                *final(self) == (UI {
                    selected_piece_cursor: c as i8,
                    cursor_coordinates: if 0 <= c < n {
                        authorized_positions@.sort_by(coord_leq())[c]
                    } else {
                        old(self).cursor_coordinates
                    },
                    ..*old(self)
                })
            },
            authorized_positions@.len() > 0 ==> -128 <= next_piece_cursor(
                old(self).selected_piece_cursor as int,
                direction as int,
                first_time_moving,
                authorized_positions@.len() as int,
            ) <= 127,
    {
        if authorized_positions.len() == 0 {
            self.cursor_coordinates = Coord::undefined();
        } else {
            let n: i16 = authorized_positions.len() as i16;
            self.selected_piece_cursor = if self.selected_piece_cursor == 0 && first_time_moving {
                0
            } else {
                let sum: i16 = self.selected_piece_cursor as i16 + direction as i16;
                let rem: i16 = if sum >= 0 { sum % n } else { -((-sum) % n) };
                if rem == -1 { (n - 1) as i8 } else { rem as i8 }
            };
            let sorted = sort_coords(&authorized_positions);
            if self.selected_piece_cursor >= 0 && (self.selected_piece_cursor as usize) < sorted.len() {
                self.cursor_coordinates = sorted[self.selected_piece_cursor as usize];
            }
        }
    }
}

/// What an arrow key does with nothing selected: the cursor moves one
/// cell along `d_row`/`d_col`, without leaving the board edge it is at.
pub open spec fn stepped(c: Coord, d_row: int, d_col: int) -> Coord {
    Coord {
        row: if (d_row < 0 && c.row > 0) || (d_row > 0 && c.row < 7) {
            (c.row + d_row) as u8
        } else {
            c.row
        },
        col: if (d_col < 0 && c.col > 0) || (d_col > 0 && c.col < 7) {
            (c.col + d_col) as u8
        } else {
            c.col
        },
    }
}

impl UI {
    /// The effect of an arrow key: with a piece selected, the cursor steps
    /// through the piece's targets by `direction`; otherwise the cursor
    /// moves one cell.
    pub open spec fn arrow_moved(
        &self,
        after: UI,
        direction: int,
        d_row: int,
        d_col: int,
        targets: Seq<Coord>,
    ) -> bool {
        if self.selected_square is Some {
            if targets.len() == 0 {
                after == (UI {
                    cursor_coordinates: Coord { row: UNDEFINED_POSITION, col: UNDEFINED_POSITION },
                    ..*self
                })
            } else {
                let c = next_piece_cursor(self.selected_piece_cursor as int, direction, false, targets.len() as int);
                after == (UI {
                    selected_piece_cursor: c as i8,
                    cursor_coordinates: if 0 <= c < targets.len() {
                        targets.sort_by(coord_leq())[c]
                    } else {
                        self.cursor_coordinates
                    },
                    ..*self
                })
            }
        } else {
            after == (UI { cursor_coordinates: stepped(self.cursor_coordinates, d_row, d_col), ..*self })
        }
    }

    /// Moves the cursor up (see `arrow_moved`).
    pub fn cursor_up(&mut self, authorized_positions: Vec<Coord>)
        requires
            authorized_positions@.len() < 128,
            old(self).selected_piece_cursor > -128,
        ensures
            old(self).arrow_moved(*final(self), -1, -1, 0, authorized_positions@),
    {
        if self.is_cell_selected() {
            self.move_selected_piece_cursor(false, -1, authorized_positions);
        } else if self.cursor_coordinates.row > 0 {
            self.cursor_coordinates.row = self.cursor_coordinates.row - 1;
        }
    }

    /// Moves the cursor down (see `arrow_moved`).
    pub fn cursor_down(&mut self, authorized_positions: Vec<Coord>)
        requires
            authorized_positions@.len() < 128,
            old(self).selected_piece_cursor < 127,
        ensures
            old(self).arrow_moved(*final(self), 1, 1, 0, authorized_positions@),
    {
        if self.is_cell_selected() {
            self.move_selected_piece_cursor(false, 1, authorized_positions);
        } else if self.cursor_coordinates.row < 7 {
            self.cursor_coordinates.row = self.cursor_coordinates.row + 1;
        }
    }

    /// Moves the cursor left (see `arrow_moved`).
    pub fn cursor_left(&mut self, authorized_positions: Vec<Coord>)
        requires
            authorized_positions@.len() < 128,
            old(self).selected_piece_cursor > -128,
        ensures
            old(self).arrow_moved(*final(self), -1, 0, -1, authorized_positions@),
    {
        if self.is_cell_selected() {
            self.move_selected_piece_cursor(false, -1, authorized_positions);
        } else if self.cursor_coordinates.col > 0 {
            self.cursor_coordinates.col = self.cursor_coordinates.col - 1;
        }
    }

    /// Moves the cursor right (see `arrow_moved`).
    pub fn cursor_right(&mut self, authorized_positions: Vec<Coord>)
        requires
            authorized_positions@.len() < 128,
            old(self).selected_piece_cursor < 127,
        ensures
            old(self).arrow_moved(*final(self), 1, 0, 1, authorized_positions@),
    {
        if self.is_cell_selected() {
            self.move_selected_piece_cursor(false, 1, authorized_positions);
        } else if self.cursor_coordinates.col < 7 {
            self.cursor_coordinates.col = self.cursor_coordinates.col + 1;
        }
    }

    /// Moves the promotion cursor left, from the first choice round to the
    /// last of the four.
    pub fn cursor_left_promotion(&mut self)
        ensures
            final(self).promotion_cursor == (if old(self).promotion_cursor > 0 {
                old(self).promotion_cursor - 1
            } else {
                3
            }),
            final(self).cursor_coordinates == old(self).cursor_coordinates,
            final(self).selected_square == old(self).selected_square,
    {
        self.promotion_cursor = if self.promotion_cursor > 0 {
            self.promotion_cursor - 1
        } else {
            3
        };
    }

    /// Moves the promotion cursor right, round the four choices.
    pub fn cursor_right_promotion(&mut self)
        requires
            old(self).promotion_cursor < 127,
        ensures
            final(self).promotion_cursor == trunc_rem(old(self).promotion_cursor + 1, 4),
            final(self).cursor_coordinates == old(self).cursor_coordinates,
            final(self).selected_square == old(self).selected_square,
    {
        let next: i16 = self.promotion_cursor as i16 + 1;
        let rem: i16 = if next >= 0 { next % 4 } else { -((-next) % 4) };
        self.promotion_cursor = rem as i8;
    }

    /// Drops the selection, putting the cursor back where it was before.
    pub fn unselect_cell(&mut self)
        ensures
            old(self).selected_square is Some ==> *final(self) == (UI {
                selected_square: None,
                selected_piece_cursor: 0,
                cursor_coordinates: old(self).old_cursor_position,
                ..*old(self)
            }),
            old(self).selected_square is None ==> *final(self) == *old(self),
    {
        if self.is_cell_selected() {
            self.selected_square = None;
            self.selected_piece_cursor = 0;
            self.cursor_coordinates = self.old_cursor_position;
        }
    }
}

/// A target square as the view marks it: from White's side, or turned
/// round when the board is flipped.
pub open spec fn marked_coord(t: u8, is_flipped: bool) -> Coord {
    if is_flipped {
        Coord { row: (t / 8) as u8, col: (7 - t % 8) as u8 }
    } else {
        Coord { row: (7 - t / 8) as u8, col: (t % 8) as u8 }
    }
}

/// The position the view shows, if the record has one there.
pub open spec fn shown_fen(b: GameBoard) -> Option<Seq<char>> {
    match b.history_position_index {
        Some(i) => if i < b.position_history@.len() { Some(b.fens()[i as int]) } else { None },
        None => if b.position_history@.len() > 0 { Some(b.fens().last()) } else { None },
    }
}

/// The squares of the last move the view highlights: in a networked game
/// always; against an opponent that is not networked, only when the
/// opponent made it (the side not to move in the shown position); with no
/// opponent always. None without a move.
pub open spec fn highlighted_last_move(logic: GameLogic) -> (Option<u8>, Option<u8>) {
    let ms = logic.game_board.move_history@;
    if ms.len() == 0 {
        (None, None)
    } else {
        let pair = (move_from(ms.last()), Some(move_to(ms.last())));
        match logic.opponent {
            Some(o) => if o.kind is Some {
                pair
            } else {
                match shown_fen(logic.game_board) {
                    Some(fen) => if side_to_move(fen) != o.color { pair } else { (None, None) },
                    None => pair,
                }
            },
            None => pair,
        }
    }
}

impl UI {
    /// The squares of the last move to highlight (see
    /// `highlighted_last_move`).
    pub fn get_last_move_squares(&self, logic: &GameLogic) -> (r: (Option<u8>, Option<u8>))
        ensures
            r == highlighted_last_move(*logic),
    {
        let n = logic.game_board.move_history.len();
        if n == 0 {
            return (None, None);
        }
        let last_move = logic.game_board.move_history[n - 1];
        let last_move_from = last_move.from();
        let last_move_to = Some(last_move.to());
        if let Some(opponent) = &logic.opponent {
            if opponent.is_tcp_multiplayer() || opponent.is_lichess() {
                return (last_move_from, last_move_to);
            }
        }
        if let Some(position) = logic.game_board.current_position() {
            let last_move_color = match turn(position.as_str()) {
                PieceColor::White => PieceColor::Black,
                PieceColor::Black => PieceColor::White,
            };
            if let Some(opponent) = &logic.opponent {
                if last_move_color == opponent.color {
                    return (last_move_from, last_move_to);
                } else {
                    return (None, None);
                }
            }
        }
        (last_move_from, last_move_to)
    }

    /// The targets to mark for the selected piece on `actual_square`: when a
    /// piece is selected and it belongs to the side to play, its legal
    /// targets as the view shows them (`marked_coord`); otherwise none.
    pub fn get_authorized_positions_for_render(&self, logic: &GameLogic, actual_square: Option<u8>) -> (r: Vec<Coord>)
        requires
            actual_square matches Some(s) ==> s < 64,
            logic.game_board.position_history@.len() > 0,
        ensures
            r@ == (match actual_square {
                Some(s) => if self.selected_square is Some {
                    own_targets(logic.game_board, s, logic.player_turn).map_values(
                        |t: u8| marked_coord(t, logic.game_board.is_flipped),
                    )
                } else {
                    seq![]
                },
                None => seq![],
            }),
    {
        let square = match actual_square {
            Some(s) => s,
            None => {
                return Vec::new();
            },
        };
        if !self.is_cell_selected() {
            return Vec::new();
        }
        let targets = logic.game_board.get_authorized_positions(logic.player_turn, square);
        let flipped = logic.game_board.is_flipped;
        let mut out: Vec<Coord> = Vec::new();
        let mut i: usize = 0;
        while i < targets.len()
            invariant
                i <= targets@.len(),
                forall|j: int| 0 <= j < targets@.len() ==> #[trigger] targets@[j] < 64,
                out@ == targets@.subrange(0, i as int).map_values(|t: u8| marked_coord(t, flipped)),
            decreases targets@.len() - i,
        {
            let t = targets[i];
            let c = Coord::from_square(t);
            let shown = if flipped { Coord { row: 7 - c.row, col: 7 - c.col } } else { c };
            out.push(shown);
            i += 1;
            proof {
                assert(out@ =~= targets@.subrange(0, i as int).map_values(|t: u8| marked_coord(t, flipped)));
            }
        }
        proof {
            assert(targets@.subrange(0, i as int) =~= targets@);
        }
        out
    }
}

/// Where the king goes when it castles with the rook on `rook_square`:
/// h1 to g1, a1 to c1, h8 to g8, a8 to c8; none for another square.
pub open spec fn castling_target(rook_square: u8) -> Option<u8> {
    if rook_square == 7 {
        Some(6u8)
    } else if rook_square == 0 {
        Some(2u8)
    } else if rook_square == 63 {
        Some(62u8)
    } else if rook_square == 56 {
        Some(58u8)
    } else {
        None
    }
}

/// The king's destination for castling with a rook clicked on
/// `rook_square` (see `castling_target`).
pub fn castling_destination(rook_square: u8) -> (r: Option<u8>)
    ensures
        r == castling_target(rook_square),
{
    if rook_square == 7 {
        Some(6)
    } else if rook_square == 0 {
        Some(2)
    } else if rook_square == 63 {
        Some(62)
    } else if rook_square == 56 {
        Some(58)
    } else {
        None
    }
}

impl UI {
    /// The board cell under a click at `column`, `row` of the screen: none
    /// left of or above the board, before the cells have a size, or past the
    /// eighth column or row.
    pub fn board_cell_at(&self, column: u16, row: u16) -> (r: Option<Coord>)
        ensures
            r == (if column < self.top_x || row < self.top_y || self.width == 0 || self.height == 0 {
                None
            } else {
                let x = (column - self.top_x) / (self.width as int);
                let y = (row - self.top_y) / (self.height as int);
                if x > 7 || y > 7 {
                    None
                } else {
                    Some(Coord { row: y as u8, col: x as u8 })
                }
            }),
    {
        if column < self.top_x || row < self.top_y || self.width == 0 || self.height == 0 {
            return None;
        }
        let x = (column - self.top_x) / self.width;
        let y = (row - self.top_y) / self.height;
        if x > 7 || y > 7 {
            return None;
        }
        Some(Coord { row: y as u8, col: x as u8 })
    }

    /// The promotion choice under a click in the popup (0 queen .. 3
    /// knight, along its first row of cells); none elsewhere.
    pub fn promotion_choice_at(&self, column: u16, row: u16) -> (r: Option<i8>)
        requires
            column >= self.top_x,
            row >= self.top_y,
            self.width > 0,
            self.height > 0,
        ensures
            r == (if (column - self.top_x) / (self.width as int) > 3 || (row - self.top_y) / (self.height as int) > 0 {
                None
            } else {
                Some(((column - self.top_x) / (self.width as int)) as i8)
            }),
    {
        let x = (column - self.top_x) / self.width;
        let y = (row - self.top_y) / self.height;
        if x > 3 || y > 0 {
            return None;
        }
        Some(x as i8)
    }
}

/// How a cell of the board is drawn, most important first.
#[derive(Clone, Copy, Debug, PartialEq, Eq, Structural)]
pub enum CellLook {
    /// The keyboard cursor.
    Cursor,
    /// The king of the side to play, in check.
    CheckedKing,
    /// The selected piece.
    Selected,
    /// A square of the last move.
    LastMove,
    /// A square the selected piece may move to.
    Reachable,
    /// A light square.
    Light,
    /// A dark square.
    Dark,
}

/// The targets marked for the selected piece, as shown (see
/// `UI::get_authorized_positions_for_render`).
pub open spec fn marked_targets(ui: UI, logic: GameLogic) -> Seq<Coord> {
    let f = logic.game_board.is_flipped;
    match ui.selected_square {
        Some(s) => own_targets(logic.game_board, flipped_square(s, f), logic.player_turn).map_values(
            |t: u8| marked_coord(t, f),
        ),
        None => seq![],
    }
}

/// How the cell in row `i`, column `j` of the screen is drawn: the cursor
/// (not after a mouse click, and, with a piece selected, only on the
/// visible blink phase); the king in check of the side to play; the
/// selected piece; a square of the last move (its target only when the
/// selected piece cannot go there); a target of the selected piece; else
/// light or dark.
pub open spec fn cell_look_of(ui: UI, logic: GameLogic, i: u8, j: u8) -> CellLook {
    let b = logic.game_board;
    let f = b.is_flipped;
    let here = Coord { row: i, col: j };
    let sq = flipped_square(((7 - i) * 8 + j) as u8, f);
    let last = highlighted_last_move(logic);
    let marks = marked_targets(ui, logic);
    let selected_here = match ui.selected_square {
        Some(s) => marked_coord(flipped_square(s, f), f) == here,
        None => false,
    };
    if i == ui.cursor_coordinates.row && j == ui.cursor_coordinates.col && !ui.mouse_used
        && (ui.selected_square is None || ui.cursor_blink_visible) {
        CellLook::Cursor
    } else if in_check(b.shown()) && side_to_move(b.shown()) == logic.player_turn
        && (king_square(b.shown(), logic.player_turn) matches Some(k) && marked_coord(k, f) == here) {
        CellLook::CheckedKing
    } else if selected_here {
        CellLook::Selected
    } else if last.0 == Some(sq) || (last.1 == Some(sq) && !marks.contains(here)) {
        CellLook::LastMove
    } else if marks.contains(here) {
        CellLook::Reachable
    } else if (i + j) % 2 == 0 {
        CellLook::Light
    } else {
        CellLook::Dark
    }
}

/// Whether `c` is among `v`.
fn coord_among(v: &Vec<Coord>, c: Coord) -> (r: bool)
    ensures
        r == v@.contains(c),
{
    let mut k: usize = 0;
    while k < v.len()
        invariant
            k <= v.len(),
            forall|m: int| 0 <= m < k ==> v@[m] != c,
        decreases v.len() - k,
    {
        if v[k] == c {
            return true;
        }
        k += 1;
    }
    false
}

impl UI {
    /// How the cell in row `i`, column `j` is drawn (see `cell_look_of`).
    pub fn cell_look(&self, logic: &GameLogic, i: u8, j: u8) -> (r: CellLook)
        requires
            i < 8,
            j < 8,
            logic.game_board.position_history@.len() > 0,
            self.selected_square matches Some(s) ==> s < 64,
        ensures
            r == cell_look_of(*self, *logic, i, j),
    {
        let b = &logic.game_board;
        let f = b.is_flipped;
        let here = Coord { row: i, col: j };
        let sq = flip_square_if_needed((7 - i) * 8 + j, f);
        let actual = match self.selected_square {
            Some(s) => Some(flip_square_if_needed(s, f)),
            None => None,
        };
        let marks = self.get_authorized_positions_for_render(logic, actual);
        proof {
            assert(marks@ == marked_targets(*self, *logic));
        }
        let (last_from, last_to) = self.get_last_move_squares(logic);
        let selected_here = match actual {
            Some(a) => {
                let c = if f {
                    Coord { row: a / 8, col: 7 - a % 8 }
                } else {
                    Coord { row: 7 - a / 8, col: a % 8 }
                };
                c == here
            },
            None => false,
        };
        if i == self.cursor_coordinates.row && j == self.cursor_coordinates.col && !self.mouse_used
            && (self.selected_square.is_none() || self.cursor_blink_visible) {
            return CellLook::Cursor;
        }
        if b.is_getting_checked(logic.player_turn) {
            let king = b.get_king_coordinates(logic.player_turn);
            if king == here {
                return CellLook::CheckedKing;
            }
        }
        if selected_here {
            CellLook::Selected
        } else if last_from == Some(sq) || (last_to == Some(sq) && !coord_among(&marks, here)) {
            CellLook::LastMove
        } else if coord_among(&marks, here) {
            CellLook::Reachable
        } else if (i + j) % 2 == 0 {
            CellLook::Light
        } else {
            CellLook::Dark
        }
    }

    /// Lays the board out in the screen area at `x`, `y` of `width` by
    /// `height` cells: eight by eight cells of an eighth of the area each,
    /// the board centred, and remembers where it is for the mouse.
    pub fn set_board_area(&mut self, x: u16, y: u16, width: u16, height: u16)
        requires
            x + width <= u16::MAX,
            y + height <= u16::MAX,
        ensures
            final(self).width == width / 8,
            final(self).height == height / 8,
            final(self).top_x == x + (width / 2 - 4 * (width / 8)),
            final(self).top_y == y + (height / 2 - 4 * (height / 8)),
            final(self).cursor_coordinates == old(self).cursor_coordinates,
            final(self).selected_square == old(self).selected_square,
            final(self).mouse_used == old(self).mouse_used,
            final(self).display_mode == old(self).display_mode,
    {
        let w = width / 8;
        let h = height / 8;
        let border_width = width / 2 - 4 * w;
        let border_height = height / 2 - 4 * h;
        self.top_x = x + border_width;
        self.top_y = y + border_height;
        self.width = w;
        self.height = h;
    }
}

} // verus!
