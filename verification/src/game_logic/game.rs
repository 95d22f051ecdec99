//! The rules of play around the board: whose turn it is, what state the
//! game is in, playing the player's, the engine's and the opponent's moves,
//! and promotion.

use vstd::prelude::*;
use crate::chess::{
    ChessMove, START_FEN, fen_valid, initial_position, legal_moves_in, move_capture, move_from,
    move_ok, move_promotion, move_to, piece_on, play, position_after, rank_of, side_to_move,
    square_from_chars, square_named, turn, uci_move_in, uci_to_move,
};
use crate::game_logic::bot::Bot;
use crate::game_logic::game_board::{GameBoard, lemma_fens_len, targets_from, chosen_move, positions_after_move, taken_after, viewed_index};
use crate::game_logic::opponent::{Opponent, OpponentKind, move_text, opponent_copied};
use crate::game_logic::ui::{UI, coord_leq, next_piece_cursor};
use crate::board::{Coord, flip_square_if_needed, flipped_square, on_board};
use crate::constants::DisplayMode;
use crate::pieces::{PieceColor, PieceType};
use crate::text::{
    chars_eq, chars_of, has_prefix, has_utf8_len_at_least, parse_usize, parsed_usize, slice_chars,
    starts_with, utf8_len,
};

verus! {

/// The state of the game.
#[derive(Clone, Copy, Debug, PartialEq, Eq, Structural)]
pub enum GameState {
    Checkmate,
    Draw,
    Playing,
    Promotion,
}

/// The game itself: the board and who plays it.
#[derive(Debug)]
pub struct GameLogic {
    /// The record of the game.
    pub game_board: GameBoard,
    /// The engine opponent, if any.
    pub bot: Option<Bot>,
    /// The networked opponent, if any.
    pub opponent: Option<Opponent>,
    /// The side to play.
    pub player_turn: PieceColor,
    /// The state of the game.
    pub game_state: GameState,
    /// Whether the game ended because a side ran out of time.
    pub game_ended_by_time: bool,
}

impl Clone for GameLogic {
    /// A copy of the game: the same record, engine, side to play and state;
    /// the opponent copied as `opponent_copied` says.
    fn clone(&self) -> (r: GameLogic)
        ensures
            r.game_board.move_history@ == self.game_board.move_history@,
            r.game_board.position_history@ == self.game_board.position_history@,
            r.game_board.taken_pieces@ == self.game_board.taken_pieces@,
            r.game_board.consecutive_non_pawn_or_capture == self.game_board.consecutive_non_pawn_or_capture,
            r.game_board.is_flipped == self.game_board.is_flipped,
            r.game_board.history_position_index == self.game_board.history_position_index,
            r.game_board.original_flip_state == self.game_board.original_flip_state,
            match self.bot {
                Some(b) => r.bot matches Some(c) && c.engine_path@ == b.engine_path@ && c.bot_will_move
                    == b.bot_will_move && c.is_bot_starting == b.is_bot_starting && c.depth == b.depth
                    && c.difficulty == b.difficulty,
                None => r.bot is None,
            },
            match self.opponent {
                Some(o) => r.opponent matches Some(c) && opponent_copied(o, c),
                None => r.opponent is None,
            },
            r.player_turn == self.player_turn,
            r.game_state == self.game_state,
            r.game_ended_by_time == self.game_ended_by_time,
    {
        let bot = match &self.bot {
            Some(b) => Some(b.clone()),
            None => None,
        };
        let opponent = match &self.opponent {
            Some(o) => Some(o.clone()),
            None => None,
        };
        GameLogic {
            game_board: self.game_board.clone(),
            bot,
            opponent,
            player_turn: self.player_turn,
            game_state: self.game_state,
            game_ended_by_time: self.game_ended_by_time,
        }
    }
}

impl Default for GameLogic {
    /// A new game from the starting position, White to play, no opponent.
    fn default() -> (r: GameLogic)
        ensures
            r.game_board.move_history@.len() == 0,
            r.game_board.fens() == seq![START_FEN@],
            r.game_board.taken_pieces@.len() == 0,
            r.game_board.consecutive_non_pawn_or_capture == 0,
            !r.game_board.is_flipped,
            r.game_board.history_position_index is None,
            r.game_board.original_flip_state is None,
            r.bot is None,
            r.opponent is None,
            r.player_turn == PieceColor::White,
            r.game_state == GameState::Playing,
            !r.game_ended_by_time,
    {
        GameLogic {
            game_board: GameBoard::default(),
            bot: None,
            opponent: None,
            player_turn: PieceColor::White,
            game_state: GameState::Playing,
            game_ended_by_time: false,
        }
    }
}

/// The side to move in the shown position, or `turn` when no position is
/// shown.
pub open spec fn synced_turn(b: GameBoard, turn: PieceColor) -> PieceColor {
    match b.history_position_index {
        Some(i) => if i < b.position_history@.len() {
            side_to_move(b.fens()[i as int])
        } else {
            turn
        },
        None => if b.position_history@.len() > 0 {
            side_to_move(b.fens().last())
        } else {
            turn
        },
    }
}

/// The position shown by the history `fs` when navigated to `hpi`.
pub open spec fn shown_in(fs: Seq<Seq<char>>, hpi: Option<usize>) -> Seq<char> {
    fs[viewed_index(hpi, fs.len() as int)]
}

/// The piece a promotion cursor stands for: queen, rook, bishop, knight.
pub open spec fn promotion_role(cursor: int) -> PieceType {
    if cursor == 0 {
        PieceType::Queen
    } else if cursor == 1 {
        PieceType::Rook
    } else if cursor == 2 {
        PieceType::Bishop
    } else {
        PieceType::Knight
    }
}

/// The move kept in the history for a move `m` of a piece of kind
/// `role_from`: a pawn reaching the last rank with a promotion is kept
/// without it, so that the promotion can be chosen.
pub open spec fn stored_move(m: ChessMove, role_from: PieceType) -> ChessMove {
    if role_from == PieceType::Pawn && (rank_of(move_to(m) as int) == 0 || rank_of(
        move_to(m) as int,
    ) == 7) && move_promotion(m) is Some {
        ChessMove::Normal {
            role: PieceType::Pawn,
            from: move_from(m)->0,
            capture: move_capture(m),
            to: move_to(m),
            promotion: None,
        }
    } else {
        m
    }
}

/// The count of moves without a pawn move or a capture after a move of
/// `role_from` onto a square holding `role_to`.
pub open spec fn count_after(count: int, role_from: PieceType, target_taken: bool) -> int {
    if role_from == PieceType::Pawn || target_taken {
        0
    } else {
        count + 1
    }
}

/// Whether `after` has the same record as `b`, the flip of the board aside.
pub open spec fn same_record(b: GameBoard, after: GameBoard) -> bool {
    &&& after.move_history@ == b.move_history@
    &&& after.position_history@ == b.position_history@
    &&& after.taken_pieces@ == b.taken_pieces@
    &&& after.consecutive_non_pawn_or_capture == b.consecutive_non_pawn_or_capture
    &&& after.history_position_index == b.history_position_index
    &&& after.original_flip_state == b.original_flip_state
}

/// The player's move from `from` to `to` (`b` to `after`, the flip of the
/// board aside): with no piece on `from` nothing changes; otherwise the
/// move chosen in the shown position is played (`positions_after_move`)
/// and, when one is, the count of moves without a pawn move or a capture is
/// updated and the move is added to the history as `stored_move` keeps it.
pub open spec fn player_move_made(b: GameBoard, after: GameBoard, from: u8, to: u8) -> bool {
    match piece_on(b.shown(), from) {
        None => same_record(b, after),
        Some(p) => {
            let c = chosen_move(b.shown(), from, to, None);
            &&& positions_after_move(b, after, from, to, None)
            &&& after.move_history@ == match c {
                Some(m) => b.move_history@.push(stored_move(m, p.role)),
                None => b.move_history@,
            }
            &&& after.consecutive_non_pawn_or_capture == match c {
                Some(_) => count_after(
                    b.consecutive_non_pawn_or_capture as int,
                    p.role,
                    piece_on(b.shown(), to) is Some,
                ),
                None => b.consecutive_non_pawn_or_capture as int,
            }
            &&& c matches Some(m) ==> move_ok(stored_move(m, p.role))
        },
    }
}

/// The count of moves without a pawn move or a capture, after a move the
/// player made (`b` to `after`, `execute_move`): a move that takes a piece
/// (one stood on the target square) or moves a pawn sets it to 0, whatever
/// piece moved; any other move played adds one; when no move is played it
/// stays.
pub proof fn lemma_capture_or_pawn_resets_the_count(b: GameBoard, after: GameBoard, from: u8, to: u8)
    requires
        player_move_made(b, after, from, to),
    ensures
        ({
            let s = b.shown();
            match (piece_on(s, from), chosen_move(s, from, to, None)) {
                (Some(p), Some(_)) => if p.role == PieceType::Pawn || piece_on(s, to) is Some {
                    after.consecutive_non_pawn_or_capture == 0
                } else {
                    after.consecutive_non_pawn_or_capture == b.consecutive_non_pawn_or_capture + 1
                },
                _ => after.consecutive_non_pawn_or_capture == b.consecutive_non_pawn_or_capture,
            }
        }),
{
}

/// The character at `i` in `s`, or `d` past its end.
pub open spec fn char_or(s: Seq<char>, i: int, d: char) -> char {
    if 0 <= i < s.len() {
        s[i]
    } else {
        d
    }
}

/// The promotion a five-character move text asks for with its last
/// character (`q`, `r`, `b`, `n`).
pub open spec fn promotion_named(s: Seq<char>) -> Option<PieceType> {
    if s.len() == 5 {
        if s[4] == 'q' {
            Some(PieceType::Queen)
        } else if s[4] == 'r' {
            Some(PieceType::Rook)
        } else if s[4] == 'b' {
            Some(PieceType::Bishop)
        } else if s[4] == 'n' {
            Some(PieceType::Knight)
        } else {
            None
        }
    } else {
        None
    }
}

/// A move text such as "e2e4" or "e7e8q" read as origin, target and
/// promotion: at least four bytes, whose first four characters name two
/// squares (a missing character counts as `a` for a file and `1` for a
/// rank).
pub open spec fn parsed_move_text(s: Seq<char>) -> Option<(u8, u8, Option<PieceType>)> {
    if utf8_len(s) < 4 {
        None
    } else {
        match (
            square_named(char_or(s, 0, 'a'), char_or(s, 1, '1')),
            square_named(char_or(s, 2, 'a'), char_or(s, 3, '1')),
        ) {
            (Some(from), Some(to)) => Some((from, to, promotion_named(s))),
            _ => None,
        }
    }
}

/// Whether some move in `ms` goes from `from` to `to`.
pub open spec fn history_has(ms: Seq<ChessMove>, from: u8, to: u8) -> bool {
    exists|i: int| 0 <= i < ms.len() && move_from(#[trigger] ms[i]) == Some(from) && move_to(ms[i]) == to
}

/// The state after checking the shown position: checkmate, a draw, or a
/// promotion to choose set it; otherwise it stays `g`.
pub open spec fn state_after_update(b: GameBoard, g: GameState) -> GameState {
    if b.in_checkmate() {
        GameState::Checkmate
    } else if b.drawn() {
        GameState::Draw
    } else if b.awaiting_promotion() {
        GameState::Promotion
    } else {
        g
    }
}

/// Choosing a promotion (`b0`, `g0` to `b1`, `g1`): the last move, a pawn
/// reaching the last rank, is taken back with its position and played again
/// promoting to the piece under the cursor (queen, rook, bishop, knight);
/// the game goes back to playing, and when `flip_allowed` the board turns
/// round unless the game has ended. A last move without an origin square
/// changes nothing at all.
pub open spec fn promotion_made(
    b0: GameBoard,
    b1: GameBoard,
    g0: GameState,
    g1: GameState,
    cursor: int,
    flip_allowed: bool,
) -> bool {
    let ms = b0.move_history@;
    &&& b1.consecutive_non_pawn_or_capture == b0.consecutive_non_pawn_or_capture
    &&& if ms.len() > 0 && move_from(ms.last()) is None {
        b1 == b0 && g1 == g0
    } else {
        &&& g1 == GameState::Playing
        &&& b1.position_history@.len() > 0
        &&& b1.is_flipped == (b0.is_flipped != (flip_allowed && !b1.drawn() && !b1.in_checkmate()))
        &&& if ms.len() == 0 {
            &&& b1.position_history@ == b0.position_history@
            &&& b1.move_history@ == ms
            &&& b1.taken_pieces@ == b0.taken_pieces@
            &&& b1.history_position_index == b0.history_position_index
            &&& b1.original_flip_state == b0.original_flip_state
        } else {
            let last = ms.last();
            let from = move_from(last)->0;
            let fs = b0.fens().drop_last();
            let s1 = shown_in(fs, b0.history_position_index);
            let role = promotion_role(cursor);
            let c = chosen_move(s1, from, move_to(last), Some(role));
            &&& b1.taken_pieces@ == taken_after(b0.taken_pieces@, s1, move_to(last))
            &&& b1.move_history@ == (if c is Some {
                ms.drop_last().push(
                    ChessMove::Normal {
                        role: PieceType::Pawn,
                        from,
                        capture: move_capture(last),
                        to: move_to(last),
                        promotion: Some(role),
                    },
                )
            } else {
                ms.drop_last()
            })
            &&& match c {
                Some(m) => {
                    &&& b1.fens() == fs.push(position_after(s1, m)->0)
                    &&& b1.history_position_index is None
                    &&& b1.original_flip_state is None
                },
                None => {
                    &&& b1.fens() == fs
                    &&& b1.history_position_index == b0.history_position_index
                    &&& b1.original_flip_state == b0.original_flip_state
                },
            }
        }
    }
}

/// The outcome a Lichess game status announces: checkmate or resignation
/// end the game as a checkmate; a draw, stalemate, repetition, insufficient
/// material, the fifty-move rule or an aborted game as a draw.
pub open spec fn game_status_outcome(s: Seq<char>) -> Option<GameState> {
    if s == "checkmate"@ {
        Some(GameState::Checkmate)
    } else if s == "draw"@ || s == "stalemate"@ || s == "repetition"@ || s == "insufficient"@
        || s == "fifty"@ {
        Some(GameState::Draw)
    } else if s == "resign"@ {
        Some(GameState::Checkmate)
    } else if s == "aborted"@ {
        Some(GameState::Draw)
    } else {
        None
    }
}

/// Whether a message from the opponent's stream is a control message
/// rather than a move.
pub open spec fn is_control_message(text: Seq<char>) -> bool {
    has_prefix(text, "INIT_MOVES:"@) || has_prefix(text, "GAME_STATUS:"@)
}

/// What a control message does to the opponent (`o0` to `o1`) and the game
/// state (`g0` to `g1`): "INIT_MOVES:n" sets the number of moves already
/// played to `n` and raises the count of moves received to at least `n`
/// (text after the colon that is not a number changes nothing);
/// "GAME_STATUS:s" sets the state the status announces, if it is a known
/// one. Anything else changes nothing.
pub open spec fn control_message_handled(
    text: Seq<char>,
    o0: Opponent,
    o1: Opponent,
    g0: GameState,
    g1: GameState,
) -> bool {
    if has_prefix(text, "INIT_MOVES:"@) {
        &&& g1 == g0
        &&& match parsed_usize(text.skip("INIT_MOVES:"@.len() as int)) {
            Some(n) => {
                &&& o1.initial_move_count == n
                &&& o1.moves_received == if o0.moves_received < n {
                    n as int
                } else {
                    o0.moves_received as int
                }
                &&& o1.kind == o0.kind
                &&& o1.opponent_will_move == o0.opponent_will_move
                &&& o1.color == o0.color
                &&& o1.game_started == o0.game_started
            },
            None => o1 == o0,
        }
    } else if has_prefix(text, "GAME_STATUS:"@) {
        &&& o1 == o0
        &&& g1 == match game_status_outcome(text.skip("GAME_STATUS:"@.len() as int)) {
            Some(g) => g,
            None => g0,
        }
    } else {
        o1 == o0 && g1 == g0
    }
}

/// Whether a move from the stream replays a move already played: with an
/// empty history, whenever the game joined had moves already; otherwise
/// when no more moves have been received than were already played, or the
/// history has a move between the same squares.
pub open spec fn is_historical_move(initial: usize, received: usize, ms: Seq<ChessMove>, text: Seq<char>) -> bool {
    if ms.len() == 0 {
        initial > 0
    } else {
        received <= initial || match parsed_move_text(text) {
            Some((f, t, _)) => history_has(ms, f, t),
            None => false,
        }
    }
}

/// The positions a replayed move is played on: the recorded ones, or the
/// starting position when there are none.
pub open spec fn fens_or_start(fs: Seq<Seq<char>>) -> Seq<Seq<char>> {
    if fs.len() == 0 {
        seq![START_FEN@]
    } else {
        fs
    }
}

/// Rebuilding the history from a replayed stream move (`before` to
/// `after`): the move text is played in the shown position; when it is
/// played, it is recorded with the kind of the piece that stood on its
/// origin; when it cannot be played but its origin is empty and its target
/// holds a piece, it was already played and is recorded with that piece
/// and no capture.
pub open spec fn historical_move_added(before: GameBoard, after: GameBoard, text: Seq<char>) -> bool {
    let fs = fens_or_start(before.fens());
    let s = shown_in(fs, before.history_position_index);
    &&& after.is_flipped == before.is_flipped
    &&& after.consecutive_non_pawn_or_capture == before.consecutive_non_pawn_or_capture
    &&& match parsed_move_text(text) {
        None => {
            &&& after.fens() == fs
            &&& after.move_history@ == before.move_history@
            &&& after.taken_pieces@ == before.taken_pieces@
            &&& after.history_position_index == before.history_position_index
            &&& after.original_flip_state == before.original_flip_state
        },
        Some((f, t, p)) => {
            &&& after.taken_pieces@ == taken_after(before.taken_pieces@, s, t)
            &&& match chosen_move(s, f, t, p) {
                Some(m) => {
                    &&& after.fens() == fs.push(position_after(s, m)->0)
                    &&& after.history_position_index is None
                    &&& after.original_flip_state is None
                    &&& after.move_history@ == match piece_on(s, f) {
                        Some(pc) => before.move_history@.push(
                            ChessMove::Normal {
                                role: pc.role,
                                from: f,
                                capture: move_capture(m),
                                to: t,
                                promotion: move_promotion(m),
                            },
                        ),
                        None => before.move_history@,
                    }
                },
                None => {
                    &&& after.fens() == fs
                    &&& after.history_position_index == before.history_position_index
                    &&& after.original_flip_state == before.original_flip_state
                    &&& after.move_history@ == match (piece_on(s, f), piece_on(s, t)) {
                        (None, Some(pc)) => before.move_history@.push(
                            ChessMove::Normal { role: pc.role, from: f, capture: None, to: t, promotion: p },
                        ),
                        _ => before.move_history@,
                    }
                },
            }
        },
    }
}

/// Adding a move that should already have been played to an empty
/// history (`before` to `after`): the move is played if it can be and
/// recorded with the kind given, else the one on its target afterwards,
/// else a pawn; if it cannot be played it is recorded anyway, with no
/// capture, as the piece on its target or else the kind given, when there
/// is one.
pub open spec fn forced_history_added(
    before: GameBoard,
    after: GameBoard,
    f: u8,
    t: u8,
    p: Option<PieceType>,
    role_from: Option<PieceType>,
) -> bool {
    let s = before.shown();
    &&& positions_after_move(before, after, f, t, p)
    &&& after.is_flipped == before.is_flipped
    &&& after.consecutive_non_pawn_or_capture == before.consecutive_non_pawn_or_capture
    &&& after.move_history@ == match chosen_move(s, f, t, p) {
        Some(m) => before.move_history@.push(
            ChessMove::Normal {
                role: match role_from {
                    Some(r) => r,
                    None => match piece_on(position_after(s, m)->0, t) {
                        Some(pc) => pc.role,
                        None => PieceType::Pawn,
                    },
                },
                from: f,
                capture: move_capture(m),
                to: t,
                promotion: move_promotion(m),
            },
        ),
        None => match piece_on(s, t) {
            Some(pc) => before.move_history@.push(
                ChessMove::Normal { role: pc.role, from: f, capture: None, to: t, promotion: p },
            ),
            None => match role_from {
                Some(r) => before.move_history@.push(
                    ChessMove::Normal { role: r, from: f, capture: None, to: t, promotion: p },
                ),
                None => before.move_history@,
            },
        },
    }
}

/// Playing an opponent's move as it arrives (`before` to `after`, with the
/// result `r`): text that is not a move, or a move between squares the
/// history already has a move between, changes nothing; a move that should
/// already have been played, while the history is empty, is added to it
/// as `forced_history_added` says; otherwise the move is played and, when
/// it is, recorded with the kind of the piece on its origin.
pub open spec fn live_move_outcome(
    initial: usize,
    received: usize,
    before: GameBoard,
    after: GameBoard,
    text: Seq<char>,
    r: bool,
) -> bool {
    let s = before.shown();
    match parsed_move_text(text) {
        None => !r && after == before,
        Some((f, t, p)) => if history_has(before.move_history@, f, t) {
            !r && after == before
        } else if before.move_history@.len() == 0 && received <= initial {
            &&& !r
            &&& forced_history_added(
                before,
                after,
                f,
                t,
                p,
                match piece_on(s, f) {
                    Some(pc) => Some(pc.role),
                    None => None,
                },
            )
        } else {
            &&& r == chosen_move(s, f, t, p) is Some
            &&& positions_after_move(before, after, f, t, p)
            &&& after.is_flipped == before.is_flipped
            &&& after.consecutive_non_pawn_or_capture == before.consecutive_non_pawn_or_capture
            &&& after.move_history@ == match (chosen_move(s, f, t, p), piece_on(s, f)) {
                (Some(m), Some(pc)) => before.move_history@.push(
                    ChessMove::Normal {
                        role: pc.role,
                        from: f,
                        capture: move_capture(m),
                        to: t,
                        promotion: move_promotion(m),
                    },
                ),
                _ => before.move_history@,
            }
        },
    }
}

/// Whether `o1` is `o0` with only the expectation of an opponent move
/// possibly changed.
pub open spec fn same_opponent_but_waiting(o0: Opponent, o1: Opponent) -> bool {
    &&& o1.kind == o0.kind
    &&& o1.color == o0.color
    &&& o1.game_started == o0.game_started
    &&& o1.initial_move_count == o0.initial_move_count
    &&& o1.moves_received == o0.moves_received
}

/// Whether some move of `ms` goes from `from` to `to`.
pub fn any_move_between(ms: &Vec<ChessMove>, from: u8, to: u8) -> (r: bool)
    ensures
        r == history_has(ms@, from, to),
{
    let mut i: usize = 0;
    while i < ms.len()
        invariant
            i <= ms.len(),
            forall|k: int| 0 <= k < i ==> !(move_from(#[trigger] ms@[k]) == Some(from) && move_to(ms@[k]) == to),
        decreases ms.len() - i,
    {
        let m = ms[i];
        if m.from() == Some(from) && m.to() == to {
            return true;
        }
        i += 1;
    }
    false
}

impl GameLogic {
    /// Checkmate or draw in the shown position, or a promotion to choose,
    /// set the state; otherwise it stays.
    pub fn update_game_state(&mut self)
        requires
            old(self).game_board.position_history@.len() > 0,
        ensures
            final(self).game_state == state_after_update(old(self).game_board, old(self).game_state),
            final(self).game_board == old(self).game_board,
            final(self).bot == old(self).bot,
            final(self).game_ended_by_time == old(self).game_ended_by_time,
            final(self).opponent == old(self).opponent,
            final(self).player_turn == old(self).player_turn,
    {
        if self.game_board.is_checkmate() {
            self.game_state = GameState::Checkmate;
        } else if self.game_board.is_draw() {
            self.game_state = GameState::Draw;
        } else if self.game_board.is_latest_move_promotion() {
            self.game_state = GameState::Promotion;
        }
    }

    /// Hands the turn to the other side.
    pub fn switch_player_turn(&mut self)
        ensures
            final(self).player_turn != old(self).player_turn,
            final(self).game_board == old(self).game_board,
            final(self).bot == old(self).bot,
            final(self).game_ended_by_time == old(self).game_ended_by_time,
            final(self).opponent == old(self).opponent,
            final(self).game_state == old(self).game_state,
    {
        match self.player_turn {
            PieceColor::White => self.player_turn = PieceColor::Black,
            PieceColor::Black => self.player_turn = PieceColor::White,
        }
    }

    /// Gives the turn to the side to move in the shown position, when there
    /// is one.
    pub fn sync_player_turn_with_position(&mut self)
        ensures
            final(self).player_turn == synced_turn(old(self).game_board, old(self).player_turn),
            final(self).game_board == old(self).game_board,
            final(self).bot == old(self).bot,
            final(self).game_ended_by_time == old(self).game_ended_by_time,
            final(self).opponent == old(self).opponent,
            final(self).game_state == old(self).game_state,
    {
        if let Some(position) = self.game_board.current_position() {
            self.player_turn = turn(position.as_str());
        }
    }

    /// Plays the engine's answer, given as UCI text, in the shown position:
    /// with an engine opponent and a legal move, the move and the position
    /// it leads to are recorded and the view goes back to the latest
    /// position; otherwise nothing changes.
    pub fn execute_bot_move(&mut self, bot_move: &str)
        requires
            old(self).game_board.position_history@.len() > 0,
        ensures
            final(self).bot == old(self).bot,
            final(self).game_ended_by_time == old(self).game_ended_by_time,
            final(self).opponent == old(self).opponent,
            final(self).player_turn == old(self).player_turn,
            final(self).game_state == old(self).game_state,
            match (old(self).bot, uci_move_in(old(self).game_board.shown(), bot_move@)) {
                (Some(_), Some(m)) => {
                    &&& final(self).game_board.move_history@ == old(self).game_board.move_history@.push(m)
                    &&& final(self).game_board.fens() == old(self).game_board.fens().push(
                        position_after(old(self).game_board.shown(), m)->0,
                    )
                    &&& final(self).game_board.history_position_index is None
                    &&& final(self).game_board.original_flip_state is None
                    &&& final(self).game_board.taken_pieces@ == old(self).game_board.taken_pieces@
                    &&& final(self).game_board.is_flipped == old(self).game_board.is_flipped
                    &&& final(self).game_board.consecutive_non_pawn_or_capture
                        == old(self).game_board.consecutive_non_pawn_or_capture
                    &&& move_ok(m)
                },
                _ => final(self).game_board == old(self).game_board,
            },
    {
        if self.bot.is_none() {
            return;
        }
        let fen_position = self.game_board.fen_position();
        let bot_actual_move = match uci_to_move(fen_position.as_str(), bot_move) {
            Some(m) => m,
            None => {
                return;
            },
        };
        let new_position = match play(fen_position.as_str(), &bot_actual_move) {
            Some(pos) => pos,
            None => {
                return;
            },
        };
        let ghost before = self.game_board.position_history@;
        self.game_board.move_history.push(bot_actual_move);
        self.game_board.position_history.push(new_position);
        self.game_board.history_position_index = None;
        self.game_board.original_flip_state = None;
        proof {
            assert(self.game_board.fens() =~= crate::game_logic::game_board::fens(before).push(new_position@));
        }
    }

    /// Replaces the last move, a pawn reaching the last rank, by the same
    /// move promoting to the piece under the cursor (see `promotion_made`);
    /// the board may turn round only in a game with neither engine nor
    /// opponent, and only when `should_flip`.
    pub fn promote_piece(&mut self, promotion_cursor: u8, should_flip: bool)
        requires
            promotion_cursor <= 3,
            old(self).game_board.position_history@.len() > 0,
            old(self).game_board.move_history@.len() > 0 ==> {
                &&& old(self).game_board.position_history@.len() >= 2
                &&& move_ok(old(self).game_board.move_history@.last())
            },
        ensures
            final(self).bot == old(self).bot,
            final(self).game_ended_by_time == old(self).game_ended_by_time,
            final(self).opponent == old(self).opponent,
            final(self).player_turn == old(self).player_turn,
            promotion_made(
                old(self).game_board,
                final(self).game_board,
                old(self).game_state,
                final(self).game_state,
                promotion_cursor as int,
                should_flip && old(self).opponent is None && old(self).bot is None,
            ),
    {
        let n = self.game_board.move_history.len();
        if n > 0 {
            let last_move = self.game_board.move_history[n - 1];
            let new_piece = match promotion_cursor {
                0 => PieceType::Queen,
                1 => PieceType::Rook,
                2 => PieceType::Bishop,
                _ => PieceType::Knight,
            };
            let from_square = match last_move.from() {
                Some(sq) => sq,
                None => {
                    return;
                },
            };
            let ghost b = self.game_board;
            self.game_board.move_history.pop();
            self.game_board.position_history.pop();
            proof {
                assert(self.game_board.fens() =~= b.fens().drop_last());
                assert(self.game_board.move_history@ =~= b.move_history@.drop_last());
            }
            if self.game_board.execute_shakmaty_move_with_promotion(
                from_square,
                last_move.to(),
                Some(new_piece),
            ) {
                self.game_board.move_history.push(
                    ChessMove::Normal {
                        role: PieceType::Pawn,
                        from: from_square,
                        capture: last_move.capture(),
                        to: last_move.to(),
                        promotion: Some(new_piece),
                    },
                );
            }
            proof {
                lemma_fens_len(b.position_history@);
                lemma_fens_len(self.game_board.position_history@);
            }
        }
        self.game_state = GameState::Playing;
        if should_flip && !self.game_board.is_draw() && !self.game_board.is_checkmate()
            && self.opponent.is_none() && self.bot.is_none() {
            self.game_board.flip_the_board();
        }
    }

    /// Plays the player's move from `from` to `to` in the shown position
    /// (see `player_move_made`): a pawn reaching the last rank is recorded
    /// without its promotion, so that it can be chosen.
    pub fn execute_move(&mut self, from: u8, to: u8)
        requires
            from < 64,
            to < 64,
            old(self).game_board.position_history@.len() > 0,
            old(self).game_board.consecutive_non_pawn_or_capture < i32::MAX,
        ensures
            final(self).bot == old(self).bot,
            final(self).game_ended_by_time == old(self).game_ended_by_time,
            final(self).opponent == old(self).opponent,
            final(self).player_turn == old(self).player_turn,
            final(self).game_state == old(self).game_state,
            final(self).game_board.position_history@.len() > 0,
            final(self).game_board.is_flipped == old(self).game_board.is_flipped,
            player_move_made(old(self).game_board, final(self).game_board, from, to),
    {
        let role_from = match self.game_board.get_role_at_square(from) {
            Some(role) => role,
            None => {
                return;
            },
        };
        let role_to = self.game_board.get_role_at_square(to);
        if let Some(executed_move) = self.game_board.execute_shakmaty_move(from, to) {
            self.game_board.increment_consecutive_non_pawn_or_capture(role_from, role_to);
            let target = executed_move.to();
            let move_to_store = if role_from == PieceType::Pawn && (target / 8 == 0 || target / 8 == 7)
                && executed_move.promotion().is_some() {
                match executed_move {
                    ChessMove::Normal { from: origin, capture, to, .. } => ChessMove::Normal {
                        role: PieceType::Pawn,
                        from: origin,
                        capture,
                        to,
                        promotion: None,
                    },
                    other => other,
                }
            } else {
                executed_move
            };
            self.game_board.move_history.push(move_to_store);
        }
        proof {
            lemma_fens_len(old(self).game_board.position_history@);
            lemma_fens_len(self.game_board.position_history@);
        }
    }

    /// Reads a move text such as "e2e4" or "e7e8q" (see
    /// `parsed_move_text`): the origin, the target and the promotion.
    pub fn parse_opponent_move_string(move_str: &str) -> (r: Option<(u8, u8, Option<PieceType>)>)
        ensures
            r == parsed_move_text(move_str@),
            r matches Some((f, t, _)) ==> f < 64 && t < 64,
    {
        let chars = chars_of(move_str);
        if !has_utf8_len_at_least(&chars, 4) {
            return None;
        }
        let from_file_char = if chars.len() > 0 { chars[0] } else { 'a' };
        let from_rank_char = if chars.len() > 1 { chars[1] } else { '1' };
        let to_file_char = if chars.len() > 2 { chars[2] } else { 'a' };
        let to_rank_char = if chars.len() > 3 { chars[3] } else { '1' };
        let promotion_piece: Option<PieceType> = if chars.len() == 5 {
            let c = chars[4];
            if c == 'q' {
                Some(PieceType::Queen)
            } else if c == 'r' {
                Some(PieceType::Rook)
            } else if c == 'b' {
                Some(PieceType::Bishop)
            } else if c == 'n' {
                Some(PieceType::Knight)
            } else {
                None
            }
        } else {
            None
        };
        let from = match square_from_chars(from_file_char, from_rank_char) {
            Some(sq) => sq,
            None => {
                return None;
            },
        };
        let to = match square_from_chars(to_file_char, to_rank_char) {
            Some(sq) => sq,
            None => {
                return None;
            },
        };
        Some((from, to, promotion_piece))
    }
    /// Handles a control message from the opponent's stream (see
    /// `control_message_handled`); whether it was one.
    fn handle_opponent_control_message(
        opponent: &mut Opponent,
        game_state: &mut GameState,
        message: &str,
    ) -> (r: bool)
        ensures
            r == is_control_message(message@),
            control_message_handled(message@, *old(opponent), *final(opponent), *old(game_state), *final(game_state)),
    {
        let text = chars_of(message);
        let init = chars_of("INIT_MOVES:");
        if starts_with(&text, &init) {
            let count_text = slice_chars(&text, init.len(), text.len());
            proof {
                assert(count_text@ =~= message@.skip("INIT_MOVES:"@.len() as int));
            }
            if let Some(count) = parse_usize(&count_text) {
                opponent.initial_move_count = count;
                if opponent.moves_received < count {
                    opponent.moves_received = count;
                }
            }
            return true;
        }
        let status = chars_of("GAME_STATUS:");
        if starts_with(&text, &status) {
            let status_text = slice_chars(&text, status.len(), text.len());
            proof {
                assert(status_text@ =~= message@.skip("GAME_STATUS:"@.len() as int));
            }
            if chars_eq(&status_text, &chars_of("checkmate")) {
                *game_state = GameState::Checkmate;
            } else if chars_eq(&status_text, &chars_of("draw")) || chars_eq(&status_text, &chars_of("stalemate"))
                || chars_eq(&status_text, &chars_of("repetition")) || chars_eq(
                &status_text,
                &chars_of("insufficient"),
            ) || chars_eq(&status_text, &chars_of("fifty")) {
                *game_state = GameState::Draw;
            } else if chars_eq(&status_text, &chars_of("resign")) {
                *game_state = GameState::Checkmate;
            } else if chars_eq(&status_text, &chars_of("aborted")) {
                *game_state = GameState::Draw;
            }
            return true;
        }
        false
    }

    /// Handles a move from the stream that replays one already played (see
    /// `is_historical_move`); whether it was one. With an empty history the
    /// move is added to it as `historical_move_added` says; with a history,
    /// it is skipped.
    fn handle_historical_move(opponent: &Opponent, game_board: &mut GameBoard, move_str: &str) -> (r: bool)
        ensures
            r == is_historical_move(
                opponent.initial_move_count,
                opponent.moves_received,
                old(game_board).move_history@,
                move_str@,
            ),
            r && old(game_board).move_history@.len() == 0 ==> historical_move_added(
                *old(game_board),
                *final(game_board),
                move_str@,
            ),
            !(r && old(game_board).move_history@.len() == 0) ==> *final(game_board) == *old(game_board),
    {
        let history_is_empty = game_board.move_history.len() == 0;
        let move_already_in_history = if !history_is_empty {
            match Self::parse_opponent_move_string(move_str) {
                Some((from, to, _)) => any_move_between(&game_board.move_history, from, to),
                None => false,
            }
        } else {
            false
        };
        let is_historical = if history_is_empty {
            opponent.initial_move_count > 0
        } else {
            opponent.moves_received <= opponent.initial_move_count || move_already_in_history
        };
        if is_historical {
            if history_is_empty {
                if game_board.position_history.len() == 0 {
                    game_board.position_history.push(initial_position());
                    proof {
                        assert(game_board.fens() =~= seq![START_FEN@]);
                    }
                }
                proof {
                    assert(game_board.fens() == fens_or_start(old(game_board).fens()));
                }
                if let Some((from, to, promotion_piece)) = Self::parse_opponent_move_string(move_str) {
                    let piece_type_from = game_board.get_role_at_square(from);
                    let executed_move = game_board.execute_standard_move(from, to, promotion_piece);
                    if let Some(move_to_store) = executed_move {
                        if let Some(piece_type) = piece_type_from {
                            game_board.move_history.push(
                                ChessMove::Normal {
                                    role: piece_type,
                                    from,
                                    capture: move_to_store.capture(),
                                    to,
                                    promotion: move_to_store.promotion(),
                                },
                            );
                        }
                    } else {
                        let piece_type_to = game_board.get_role_at_square(to);
                        if piece_type_from.is_none() {
                            if let Some(piece_type) = piece_type_to {
                                game_board.move_history.push(
                                    ChessMove::Normal {
                                        role: piece_type,
                                        from,
                                        capture: None,
                                        to,
                                        promotion: promotion_piece,
                                    },
                                );
                            }
                        }
                    }
                }
            }
            return true;
        }
        false
    }

    /// Adds a move that should already have been played to an empty
    /// history (see `forced_history_added`); never counts it as a new move.
    fn handle_forced_historical_move(
        game_board: &mut GameBoard,
        from: u8,
        to: u8,
        promotion_piece: Option<PieceType>,
        piece_type_from: Option<PieceType>,
    ) -> (r: bool)
        requires
            from < 64,
            to < 64,
            old(game_board).position_history@.len() > 0,
        ensures
            !r,
            forced_history_added(*old(game_board), *final(game_board), from, to, promotion_piece, piece_type_from),
    {
        if let Some(executed_move) = game_board.execute_standard_move(from, to, promotion_piece) {
            proof {
                lemma_fens_len(game_board.position_history@);
            }
            let piece_type = match piece_type_from {
                Some(role) => role,
                None => match game_board.get_role_at_square(to) {
                    Some(role) => role,
                    None => PieceType::Pawn,
                },
            };
            game_board.move_history.push(
                ChessMove::Normal {
                    role: piece_type,
                    from,
                    capture: executed_move.capture(),
                    to,
                    promotion: executed_move.promotion(),
                },
            );
            return false;
        } else {
            let piece_at_to = game_board.get_role_at_square(to);
            let role = match piece_at_to {
                Some(r) => Some(r),
                None => piece_type_from,
            };
            if let Some(role) = role {
                game_board.move_history.push(
                    ChessMove::Normal { role, from, capture: None, to, promotion: promotion_piece },
                );
                return false;
            }
        }
        false
    }

    /// Plays an opponent's move as it arrives (see `live_move_outcome`);
    /// whether a move was played. When one is, no further opponent move is
    /// awaited.
    fn process_live_move(opponent: &mut Opponent, game_board: &mut GameBoard, move_str: &str) -> (r: bool)
        requires
            old(game_board).position_history@.len() > 0,
        ensures
            live_move_outcome(
                old(opponent).initial_move_count,
                old(opponent).moves_received,
                *old(game_board),
                *final(game_board),
                move_str@,
                r,
            ),
            same_opponent_but_waiting(*old(opponent), *final(opponent)),
            final(opponent).opponent_will_move == (if r { false } else { old(opponent).opponent_will_move }),
    {
        let (from, to, promotion_piece) = match Self::parse_opponent_move_string(move_str) {
            Some(m) => m,
            None => {
                return false;
            },
        };
        let piece_type_from = game_board.get_role_at_square(from);
        if any_move_between(&game_board.move_history, from, to) {
            return false;
        }
        if game_board.move_history.len() == 0 && opponent.moves_received <= opponent.initial_move_count {
            return Self::handle_forced_historical_move(game_board, from, to, promotion_piece, piece_type_from);
        }
        let executed_move = game_board.execute_standard_move(from, to, promotion_piece);
        if let Some(move_to_store) = executed_move {
            opponent.opponent_will_move = false;
            if let Some(piece_type) = piece_type_from {
                game_board.move_history.push(
                    ChessMove::Normal {
                        role: piece_type,
                        from,
                        capture: move_to_store.capture(),
                        to,
                        promotion: move_to_store.promotion(),
                    },
                );
            }
            true
        } else {
            false
        }
    }
}

/// What was read from the opponent's stream, `text`, handled (`l0` to
/// `l1`, with whether a new move was played `r`): nothing without an
/// opponent or with nothing read; a control message updates the opponent
/// or the state (`control_message_handled`). Anything else counts as one
/// more move received: a replayed move is handled as
/// `historical_move_added` says (or skipped when there is a history), and
/// a new one is played (`live_move_outcome`).
pub open spec fn opponent_text_handled(l0: GameLogic, text: Seq<char>, l1: GameLogic, r: bool) -> bool {
    &&& l1.bot == l0.bot
    &&& l1.player_turn == l0.player_turn
    &&& match l0.opponent {
        None => !r && l1 == l0,
        Some(o) => if text.len() == 0 {
            !r && l1 == l0
        } else if is_control_message(text) {
            &&& !r
            &&& l1.game_board == l0.game_board
            &&& l1.opponent matches Some(o1) && control_message_handled(text, o, o1, l0.game_state, l1.game_state)
        } else {
            let received = (o.moves_received + 1) as usize;
            &&& l1.game_state == l0.game_state
            &&& l1.opponent matches Some(o1) && {
                &&& o1.kind == o.kind
                &&& o1.color == o.color
                &&& o1.game_started == o.game_started
                &&& o1.initial_move_count == o.initial_move_count
                &&& o1.moves_received == received
                &&& o1.opponent_will_move == (if r { false } else { o.opponent_will_move })
            }
            &&& if is_historical_move(o.initial_move_count, received, l0.game_board.move_history@, text) {
                &&& !r
                &&& if l0.game_board.move_history@.len() == 0 {
                    historical_move_added(l0.game_board, l1.game_board, text)
                } else {
                    l1.game_board == l0.game_board
                }
            } else {
                live_move_outcome(o.initial_move_count, received, l0.game_board, l1.game_board, text, r)
            }
        },
    }
}

/// A game status from the opponent's stream ends the game as it says:
/// "checkmate" and "resign" as a checkmate; "draw", "stalemate",
/// "repetition", "insufficient", "fifty" and "aborted" as a draw; any other
/// status leaves the state as it was. No move is played, the board and the
/// turn stay, and the opponent is unchanged.
pub proof fn lemma_game_status_sets_the_state(l0: GameLogic, status: Seq<char>, l1: GameLogic, r: bool)
    requires
        l0.opponent is Some,
        opponent_text_handled(l0, "GAME_STATUS:"@ + status, l1, r),
    ensures
        !r,
        l1.game_board == l0.game_board,
        l1.player_turn == l0.player_turn,
        l1.opponent == l0.opponent,
        (status == "checkmate"@ || status == "resign"@) ==> l1.game_state == GameState::Checkmate,
        (status == "draw"@ || status == "stalemate"@ || status == "repetition"@ || status == "insufficient"@
            || status == "fifty"@ || status == "aborted"@) ==> l1.game_state == GameState::Draw,
        !(status == "checkmate"@ || status == "resign"@ || status == "draw"@ || status == "stalemate"@
            || status == "repetition"@ || status == "insufficient"@ || status == "fifty"@
            || status == "aborted"@) ==> l1.game_state == l0.game_state,
{
    reveal_strlit("GAME_STATUS:");
    reveal_strlit("INIT_MOVES:");
    reveal_strlit("checkmate");
    reveal_strlit("resign");
    reveal_strlit("draw");
    reveal_strlit("stalemate");
    reveal_strlit("repetition");
    reveal_strlit("insufficient");
    reveal_strlit("fifty");
    reveal_strlit("aborted");
    assert("stalemate"@ != "checkmate"@) by {
        assert("stalemate"@[0] != "checkmate"@[0]);
    }
    let p = "GAME_STATUS:"@;
    let text = p + status;
    assert(text.subrange(0, p.len() as int) =~= p);
    assert(has_prefix(text, p));
    assert(text[0] == 'G');
    assert(!has_prefix(text, "INIT_MOVES:"@)) by {
        if has_prefix(text, "INIT_MOVES:"@) {
            assert(text.subrange(0, 11)[0] == "INIT_MOVES:"@[0]);
        }
    }
    assert(text.skip(p.len() as int) =~= status);
    assert(is_control_message(text));
    assert(text.len() > 0);
}

impl GameLogic {
    /// Handles what was read from the opponent's stream (see
    /// `opponent_text_handled`). Whether a new move was played.
    pub fn execute_opponent_move(&mut self, opponent_move: &str) -> (r: bool)
        requires
            old(self).game_board.position_history@.len() > 0,
            old(self).opponent matches Some(o) ==> o.moves_received < usize::MAX,
        ensures
            opponent_text_handled(*old(self), opponent_move@, *final(self), r),
    {
        let mut opponent = match self.opponent.take() {
            Some(o) => o,
            None => {
                return false;
            },
        };
        let text = chars_of(opponent_move);
        if text.len() == 0 {
            self.opponent = Some(opponent);
            return false;
        }
        if Self::handle_opponent_control_message(&mut opponent, &mut self.game_state, opponent_move) {
            self.opponent = Some(opponent);
            return false;
        }
        opponent.moves_received = opponent.moves_received + 1;
        if Self::handle_historical_move(&opponent, &mut self.game_board, opponent_move) {
            self.opponent = Some(opponent);
            return false;
        }
        let played = Self::process_live_move(&mut opponent, &mut self.game_board, opponent_move);
        self.opponent = Some(opponent);
        played
    }

    /// After the player chose a promotion in a networked game: the text of
    /// the last move, with its promotion, to send to the opponent, whose
    /// move is then awaited. None (and no change) without an opponent or a
    /// move.
    pub fn handle_multiplayer_promotion(&mut self) -> (r: Option<String>)
        requires
            old(self).game_board.moves_ok(),
        ensures
            final(self).game_board == old(self).game_board,
            final(self).bot == old(self).bot,
            final(self).game_ended_by_time == old(self).game_ended_by_time,
            final(self).player_turn == old(self).player_turn,
            final(self).game_state == old(self).game_state,
            match (old(self).opponent, old(self).game_board.move_history@.len() > 0) {
                (Some(o), true) => {
                    let last = old(self).game_board.move_history@.last();
                    &&& r matches Some(text) && text@ == move_text(last, move_promotion(last))
                    &&& final(self).opponent matches Some(o1) && same_opponent_but_waiting(o, o1)
                        && o1.opponent_will_move
                },
                _ => r is None && final(self).opponent == old(self).opponent,
            },
    {
        let n = self.game_board.move_history.len();
        if n == 0 {
            return None;
        }
        let last_move = self.game_board.move_history[n - 1];
        proof {
            assert(move_ok(self.game_board.move_history@[n - 1]));
        }
        match self.opponent.as_mut() {
            Some(opponent) => {
                let text = opponent.move_message(&last_move, last_move.promotion());
                opponent.opponent_will_move = true;
                Some(text)
            },
            None => None,
        }
    }
}

/// What is left for the application after a player's action: the move text
/// to send to the networked opponent, and whether the engine is to answer
/// now.
#[derive(Debug)]
pub struct PendingActions {
    pub opponent_message: Option<String>,
    pub engine_to_move: bool,
}

/// A game and its view.
#[derive(Debug)]
pub struct Game {
    pub logic: GameLogic,
    pub ui: UI,
}

impl Clone for Game {
    /// A copy of the game (see `GameLogic::clone`) and of its view.
    fn clone(&self) -> (r: Game)
        ensures
            r.ui == self.ui,
            r.logic.game_board.move_history@ == self.logic.game_board.move_history@,
            r.logic.game_board.position_history@ == self.logic.game_board.position_history@,
            r.logic.game_board.taken_pieces@ == self.logic.game_board.taken_pieces@,
            r.logic.game_board.is_flipped == self.logic.game_board.is_flipped,
            r.logic.game_board.history_position_index == self.logic.game_board.history_position_index,
            r.logic.player_turn == self.logic.player_turn,
            r.logic.game_state == self.logic.game_state,
            match self.logic.opponent {
                Some(o) => r.logic.opponent matches Some(c) && opponent_copied(o, c),
                None => r.logic.opponent is None,
            },
            r.logic.bot is Some <==> self.logic.bot is Some,
    {
        Game { logic: self.logic.clone(), ui: self.ui }
    }
}

/// Whether the board turns round after a move: only with neither engine
/// nor opponent, and not while a promotion is to be chosen in a game that
/// goes on.
pub open spec fn flips_after_move(b: GameBoard, bot_none: bool, opponent_none: bool) -> bool {
    bot_none && opponent_none && (!b.awaiting_promotion() || b.drawn() || b.in_checkmate())
}

/// The engine after the player's move, the state being `st`: it is to move
/// unless a promotion is to be chosen or the game is won.
pub open spec fn bot_after_move(bot: Option<Bot>, st: GameState) -> Option<Bot> {
    match bot {
        None => None,
        Some(b) => Some(
            Bot {
                bot_will_move: b.bot_will_move || (st != GameState::Promotion && st != GameState::Checkmate),
                ..b
            },
        ),
    }
}

/// The state after the engine's part of the bookkeeping after a move.
pub open spec fn state_after_bot_check(b: GameBoard, bot: Option<Bot>, g: GameState) -> GameState {
    if bot is Some {
        state_after_update(b, g)
    } else {
        g
    }
}

/// The opponent's part of the bookkeeping after the player's move (`o0`,
/// `g0` to `o1`, `g1`, with the message `r`): a promotion to choose sets the
/// state and waits; otherwise the state is checked, the opponent is to move
/// unless the game is won, and the last move's text is sent.
pub open spec fn opponent_after_move(
    b: GameBoard,
    o0: Option<Opponent>,
    o1: Option<Opponent>,
    g0: GameState,
    g1: GameState,
    r: Option<String>,
) -> bool {
    match o0 {
        None => o1 is None && g1 == g0 && r is None,
        Some(o) => if b.awaiting_promotion() {
            o1 == o0 && g1 == GameState::Promotion && r is None
        } else {
            let st = state_after_update(b, g0);
            &&& g1 == st
            &&& o1 matches Some(p) && same_opponent_but_waiting(o, p)
                && p.opponent_will_move == (o.opponent_will_move || st != GameState::Checkmate)
            &&& if b.move_history@.len() > 0 {
                let last = b.move_history@.last();
                r matches Some(text) && text@ == move_text(last, move_promotion(last))
            } else {
                r is None
            }
        },
    }
}

/// The player playing the selected piece to the cursor (`g0` to `g1`, with
/// the message for the opponent `r`): the squares are read as shown (turned
/// round when the board is flipped), the move is made (`player_move_made`),
/// the selection dropped, the turn handed over; then the board may turn
/// (`flips_after_move`), the engine is told to move (`bot_after_move`) and
/// the opponent is sent the move (`opponent_after_move`). Without a
/// selection or with the cursor off the board nothing changes.
pub open spec fn selected_cell_acted(g0: Game, g1: Game, r: Option<String>) -> bool {
    let cur = g0.ui.cursor_coordinates;
    match g0.ui.selected_square {
        None => g1 == g0 && r is None,
        Some(sel) => if !on_board(cur.row as int, cur.col as int) {
            g1 == g0 && r is None
        } else {
            let b0 = g0.logic.game_board;
            let b1 = g1.logic.game_board;
            let from = flipped_square(sel, b0.is_flipped);
            let to = flipped_square(((7 - cur.row) * 8 + cur.col) as u8, b0.is_flipped);
            let st = state_after_bot_check(b1, g0.logic.bot, g0.logic.game_state);
            &&& player_move_made(b0, b1, from, to)
            &&& b1.is_flipped == (b0.is_flipped != flips_after_move(
                b1,
                g0.logic.bot is None,
                g0.logic.opponent is None,
            ))
            &&& g1.logic.player_turn != g0.logic.player_turn
            &&& g1.logic.bot == bot_after_move(g0.logic.bot, st)
            &&& opponent_after_move(b1, g0.logic.opponent, g1.logic.opponent, st, g1.logic.game_state, r)
            &&& g1.ui == (UI {
                selected_square: None,
                selected_piece_cursor: 0,
                cursor_coordinates: g0.ui.old_cursor_position,
                ..g0.ui
            })
        },
    }
}

/// The targets of the piece on square `sq` of the shown position, when it
/// belongs to the side to play.
pub open spec fn own_targets(b: GameBoard, sq: u8, turn: PieceColor) -> Seq<u8> {
    match piece_on(b.shown(), sq) {
        Some(p) => if p.color == turn {
            targets_from(legal_moves_in(b.shown()), sq)
        } else {
            seq![]
        },
        None => seq![],
    }
}

/// A square as shown on the board, turned round when it is flipped.
pub open spec fn shown_coord(sq: u8, is_flipped: bool) -> Coord {
    let f = flipped_square(sq, is_flipped);
    Coord { row: (7 - f / 8) as u8, col: (f % 8) as u8 }
}

/// Selecting the piece under the cursor (`g0` to `g1`): when it belongs to
/// the side to play and can move (to fewer than 128 squares, all a piece
/// ever has), it is selected, the cursor position is kept to come back to,
/// and the cursor goes to one of its targets as shown
/// (`move_selected_piece_cursor`, moving for the first time). Otherwise
/// nothing changes.
pub open spec fn cell_selected(g0: Game, g1: Game) -> bool {
    let cur = g0.ui.cursor_coordinates;
    let b = g0.logic.game_board;
    &&& g1.logic == g0.logic
    &&& if !on_board(cur.row as int, cur.col as int) {
        g1.ui == g0.ui
    } else {
        let sq = ((7 - cur.row) * 8 + cur.col) as u8;
        let targets = own_targets(b, flipped_square(sq, b.is_flipped), g0.logic.player_turn);
        if targets.len() == 0 || targets.len() >= 128 {
            g1.ui == g0.ui
        } else {
            let shown = targets.map_values(|t: u8| shown_coord(t, b.is_flipped));
            let n = targets.len() as int;
            let c = next_piece_cursor(g0.ui.selected_piece_cursor as int, 1, true, n);
            g1.ui == (UI {
                selected_square: Some(sq),
                old_cursor_position: cur,
                selected_piece_cursor: c as i8,
                cursor_coordinates: if 0 <= c < n {
                    shown.sort_by(coord_leq())[c]
                } else {
                    cur
                },
                ..g0.ui
            })
        }
    }
}

/// The player choosing a promotion (`g0` to `g1`, with what is left `r`):
/// a cursor among the four choices promotes (`promotion_made`, the board
/// turning only when `should_flip` and with neither engine nor opponent),
/// the cursor goes back to the first choice, the opponent is sent the move
/// and awaited, and the engine is to answer.
pub open spec fn promotion_handled(g0: Game, g1: Game, should_flip: bool, r: PendingActions) -> bool {
    let l0 = g0.logic;
    let l1 = g1.logic;
    let cursor = g0.ui.promotion_cursor;
    &&& if 0 <= cursor <= 3 {
        promotion_made(
            l0.game_board,
            l1.game_board,
            l0.game_state,
            l1.game_state,
            cursor as int,
            should_flip && l0.opponent is None && l0.bot is None,
        )
    } else {
        l1.game_board == l0.game_board && l1.game_state == l0.game_state
    }
    &&& l1.bot == l0.bot
    &&& l1.player_turn == l0.player_turn
    &&& g1.ui == UI { promotion_cursor: 0, ..g0.ui }
    &&& r.engine_to_move == l0.bot is Some
    &&& match (l0.opponent, l1.game_board.move_history@.len() > 0) {
        (Some(o), true) => {
            let last = l1.game_board.move_history@.last();
            &&& r.opponent_message matches Some(text) && text@ == move_text(last, move_promotion(last))
            &&& l1.opponent matches Some(o1) && same_opponent_but_waiting(o, o1) && o1.opponent_will_move
        },
        _ => r.opponent_message is None && l1.opponent == l0.opponent,
    }
}

/// What a game needs for the player's actions: a position, moves on the
/// board (with a position before the last), room in the move count, and a
/// selection and cursor the view can hold.
pub open spec fn game_ready(g: Game) -> bool {
    let b = g.logic.game_board;
    &&& b.position_history@.len() > 0
    &&& b.moves_ok()
    &&& b.move_history@.len() > 0 ==> b.position_history@.len() >= 2
    &&& b.consecutive_non_pawn_or_capture < i32::MAX
    &&& g.ui.selected_square matches Some(s) ==> s < 64
    &&& -128 < g.ui.selected_piece_cursor < 127
}


/// Whether a networked TCP game refuses the player's click because it is
/// the other side's turn.
pub open spec fn click_refused(g: Game, player_color: Option<PieceColor>) -> bool {
    &&& (g.logic.opponent matches Some(o) && o.kind matches Some(OpponentKind::Tcp))
    &&& (player_color matches Some(c) && g.logic.player_turn != c)
}

/// Playing on from a position looked back at (`g0` to `g1`): the history is
/// cut after it (`GameBoard::truncate_history_at`); when following the
/// latest position nothing changes.
pub open spec fn history_cut(g0: Game, g1: Game) -> bool {
    let b0 = g0.logic.game_board;
    let b1 = g1.logic.game_board;
    &&& g1.ui == g0.ui
    &&& g1.logic.bot == g0.logic.bot
    &&& g1.logic.opponent == g0.logic.opponent
    &&& g1.logic.player_turn == g0.logic.player_turn
    &&& g1.logic.game_state == g0.logic.game_state
    &&& match b0.history_position_index {
        Some(index) if index < b0.position_history@.len() => {
            &&& b1.position_history@ == b0.position_history@.subrange(0, index + 1)
            &&& b1.move_history@ == (if index < b0.move_history@.len() {
                b0.move_history@.subrange(0, index as int)
            } else {
                b0.move_history@
            })
            &&& b1.history_position_index is None
            &&& b1.original_flip_state is None
            &&& b1.is_flipped == b0.is_flipped
            &&& b1.taken_pieces@ == b0.taken_pieces@
            &&& b1.consecutive_non_pawn_or_capture == b0.consecutive_non_pawn_or_capture
        },
        _ => b1 == b0,
    }
}

/// What a click on the board does once the history is cut (`g1` to `g2`,
/// with what is left `r`): in the promotion popup it chooses the promotion
/// (turning the board only with neither engine nor opponent); in a game
/// that goes on it plays the selected piece or selects one; an ended game
/// ignores it.
pub open spec fn click_handled(g1: Game, g2: Game, r: PendingActions) -> bool {
    let st = g1.logic.game_state;
    if st == GameState::Promotion {
        promotion_handled(g1, g2, g1.logic.opponent is None && g1.logic.bot is None, r)
    } else if st != GameState::Checkmate && st != GameState::Draw {
        if g1.ui.selected_square is Some {
            selected_cell_acted(g1, g2, r.opponent_message) && !r.engine_to_move
        } else {
            cell_selected(g1, g2) && r.opponent_message is None && !r.engine_to_move
        }
    } else {
        g2 == g1 && r.opponent_message is None && !r.engine_to_move
    }
}

impl Game {
    /// A game on `game_board` with `player_turn` to play, no opponent and a
    /// fresh view.
    pub fn new(game_board: GameBoard, player_turn: PieceColor) -> (r: Game)
        ensures
            r.logic.game_board == game_board,
            r.logic.player_turn == player_turn,
            r.logic.bot is None,
            r.logic.opponent is None,
            r.logic.game_state == GameState::Playing,
            !r.logic.game_ended_by_time,
            r.ui.is_fresh(),
            r.ui.display_mode == DisplayMode::DEFAULT,
    {
        Game {
            logic: GameLogic {
                game_board,
                bot: None,
                opponent: None,
                player_turn,
                game_state: GameState::Playing,
                game_ended_by_time: false,
            },
            ui: UI::default(),
        }
    }

    /// Puts a board in the game.
    pub fn set_board(&mut self, game_board: GameBoard)
        ensures
            final(self).logic.game_board == game_board,
            final(self).logic.bot == old(self).logic.bot,
            final(self).logic.game_ended_by_time == old(self).logic.game_ended_by_time,
            final(self).logic.opponent == old(self).logic.opponent,
            final(self).logic.player_turn == old(self).logic.player_turn,
            final(self).logic.game_state == old(self).logic.game_state,
            final(self).ui == old(self).ui,
    {
        self.logic.game_board = game_board;
    }

    /// Sets the side to play.
    pub fn set_player_turn(&mut self, player_turn: PieceColor)
        ensures
            final(self).logic.player_turn == player_turn,
            final(self).logic.game_board == old(self).logic.game_board,
            final(self).logic.bot == old(self).logic.bot,
            final(self).logic.game_ended_by_time == old(self).logic.game_ended_by_time,
            final(self).logic.opponent == old(self).logic.opponent,
            final(self).logic.game_state == old(self).logic.game_state,
            final(self).ui == old(self).ui,
    {
        self.logic.player_turn = player_turn;
    }

    /// Hands the turn to the other side.
    pub fn switch_player_turn(&mut self)
        ensures
            final(self).logic.player_turn != old(self).logic.player_turn,
            final(self).logic.game_board == old(self).logic.game_board,
            final(self).logic.bot == old(self).logic.bot,
            final(self).logic.game_ended_by_time == old(self).logic.game_ended_by_time,
            final(self).logic.opponent == old(self).logic.opponent,
            final(self).logic.game_state == old(self).logic.game_state,
            final(self).ui == old(self).ui,
    {
        self.logic.switch_player_turn();
    }
}

impl Game {
    /// Turns the board round after a move when `flips_after_move` says so.
    fn handle_after_move_board_flip(&mut self)
        requires
            old(self).logic.game_board.position_history@.len() > 0,
        ensures
            final(self).logic.game_board.is_flipped == (old(self).logic.game_board.is_flipped
                != flips_after_move(
                old(self).logic.game_board,
                old(self).logic.bot is None,
                old(self).logic.opponent is None,
            )),
            same_record(old(self).logic.game_board, final(self).logic.game_board),
            final(self).logic.bot == old(self).logic.bot,
            final(self).logic.game_ended_by_time == old(self).logic.game_ended_by_time,
            final(self).logic.opponent == old(self).logic.opponent,
            final(self).logic.player_turn == old(self).logic.player_turn,
            final(self).logic.game_state == old(self).logic.game_state,
            final(self).ui == old(self).ui,
    {
        if self.logic.bot.is_none() && self.logic.opponent.is_none() && (
        !self.logic.game_board.is_latest_move_promotion() || self.logic.game_board.is_draw()
            || self.logic.game_board.is_checkmate()) {
            self.logic.game_board.flip_the_board();
        }
    }

    /// With an engine: checks the state, and tells the engine to move
    /// (`bot_after_move`).
    fn handle_after_move_bot_logic(&mut self)
        requires
            old(self).logic.game_board.position_history@.len() > 0,
        ensures
            final(self).logic.game_state == state_after_bot_check(
                old(self).logic.game_board,
                old(self).logic.bot,
                old(self).logic.game_state,
            ),
            final(self).logic.bot == bot_after_move(old(self).logic.bot, final(self).logic.game_state),
            final(self).logic.game_board == old(self).logic.game_board,
            final(self).logic.opponent == old(self).logic.opponent,
            final(self).logic.player_turn == old(self).logic.player_turn,
            final(self).ui == old(self).ui,
    {
        if self.logic.bot.is_some() {
            self.logic.update_game_state();
            if self.logic.game_state != GameState::Promotion && self.logic.game_state != GameState::Checkmate {
                if let Some(bot) = self.logic.bot.as_mut() {
                    bot.bot_will_move = true;
                }
            }
        }
    }

    /// With an opponent: the bookkeeping of `opponent_after_move`; the text
    /// of the move to send, if any.
    fn handle_after_move_opponent_logic(&mut self) -> (r: Option<String>)
        requires
            old(self).logic.game_board.position_history@.len() > 0,
            old(self).logic.game_board.moves_ok(),
        ensures
            opponent_after_move(
                old(self).logic.game_board,
                old(self).logic.opponent,
                final(self).logic.opponent,
                old(self).logic.game_state,
                final(self).logic.game_state,
                r,
            ),
            final(self).logic.game_board == old(self).logic.game_board,
            final(self).logic.bot == old(self).logic.bot,
            final(self).logic.game_ended_by_time == old(self).logic.game_ended_by_time,
            final(self).logic.player_turn == old(self).logic.player_turn,
            final(self).ui == old(self).ui,
    {
        if self.logic.opponent.is_none() {
            return None;
        }
        if self.logic.game_board.is_latest_move_promotion() {
            self.logic.game_state = GameState::Promotion;
            return None;
        }
        self.logic.update_game_state();
        let won = self.logic.game_state == GameState::Checkmate;
        let n = self.logic.game_board.move_history.len();
        let last = if n > 0 {
            proof {
                assert(move_ok(self.logic.game_board.move_history@[n - 1]));
            }
            Some(self.logic.game_board.move_history[n - 1])
        } else {
            None
        };
        match self.logic.opponent.as_mut() {
            Some(opponent) => {
                if !won {
                    opponent.opponent_will_move = true;
                }
                match last {
                    Some(m) => Some(opponent.move_message(&m, m.promotion())),
                    None => None,
                }
            },
            None => None,
        }
    }

    /// Plays the selected piece to the cursor (see `selected_cell_acted`);
    /// the text to send to the opponent, if any.
    pub fn already_selected_cell_action(&mut self) -> (r: Option<String>)
        requires
            game_ready(*old(self)),
        ensures
            selected_cell_acted(*old(self), *final(self), r),
    {
        let selected_square = match self.ui.selected_square {
            Some(sq) => sq,
            None => {
                return None;
            },
        };
        let cursor_square = match self.ui.cursor_coordinates.to_square() {
            Some(sq) => sq,
            None => {
                return None;
            },
        };
        let from = flip_square_if_needed(selected_square, self.logic.game_board.is_flipped);
        let to = flip_square_if_needed(cursor_square, self.logic.game_board.is_flipped);
        self.logic.execute_move(from, to);
        self.ui.unselect_cell();
        self.logic.switch_player_turn();
        self.handle_after_move_board_flip();
        self.handle_after_move_bot_logic();
        proof {
            assert forall|i: int| 0 <= i < self.logic.game_board.move_history@.len() implies move_ok(
                #[trigger] self.logic.game_board.move_history@[i],
            ) by {
                if i < old(self).logic.game_board.move_history@.len() {
                    assert(self.logic.game_board.move_history@[i] == old(self).logic.game_board.move_history@[i]);
                }
            }
        }
        self.handle_after_move_opponent_logic()
    }
}

impl Game {
    /// Selects the piece under the cursor (see `cell_selected`).
    pub fn select_cell(&mut self)
        requires
            game_ready(*old(self)),
        ensures
            cell_selected(*old(self), *final(self)),
    {
        let square = match self.ui.cursor_coordinates.to_square() {
            Some(s) => s,
            None => {
                return;
            },
        };
        let flipped = self.logic.game_board.is_flipped;
        let actual_square = flip_square_if_needed(square, flipped);
        let authorized_positions = self.logic.game_board.get_authorized_positions(
            self.logic.player_turn,
            actual_square,
        );
        if authorized_positions.len() == 0 || authorized_positions.len() >= 128 {
            return;
        }
        self.ui.selected_square = Some(square);
        self.ui.old_cursor_position = self.ui.cursor_coordinates;
        let mut shown: Vec<Coord> = Vec::new();
        let mut i: usize = 0;
        while i < authorized_positions.len()
            invariant
                i <= authorized_positions@.len(),
                forall|j: int| 0 <= j < authorized_positions@.len() ==> #[trigger] authorized_positions@[j] < 64,
                shown@ == authorized_positions@.subrange(0, i as int).map_values(
                    |t: u8| shown_coord(t, flipped),
                ),
            decreases authorized_positions@.len() - i,
        {
            let t = flip_square_if_needed(authorized_positions[i], flipped);
            shown.push(Coord::from_square(t));
            i += 1;
            proof {
                assert(shown@ =~= authorized_positions@.subrange(0, i as int).map_values(
                    |t: u8| shown_coord(t, flipped),
                ));
            }
        }
        proof {
            assert(authorized_positions@.subrange(0, i as int) =~= authorized_positions@);
        }
        self.ui.move_selected_piece_cursor(true, 1, shown);
    }

    /// Handles the choice in the promotion popup (see `promotion_handled`).
    pub fn handle_promotion(&mut self, should_flip: bool) -> (r: PendingActions)
        requires
            game_ready(*old(self)),
        ensures
            promotion_handled(*old(self), *final(self), should_flip, r),
    {
        if self.ui.promotion_cursor >= 0 && self.ui.promotion_cursor <= 3 {
            self.logic.promote_piece(self.ui.promotion_cursor as u8, should_flip);
        }
        self.ui.promotion_cursor = 0;
        let mut opponent_message: Option<String> = None;
        if self.logic.opponent.is_some() {
            proof {
                let ms = self.logic.game_board.move_history@;
                assert forall|i: int| 0 <= i < ms.len() implies move_ok(#[trigger] ms[i]) by {
                    let m0 = old(self).logic.game_board.move_history@;
                    if i < m0.len() - 1 || (i < m0.len() && ms.len() == m0.len() && ms == m0) {
                        assert(ms[i] == m0[i]);
                    }
                }
            }
            opponent_message = self.logic.handle_multiplayer_promotion();
        }
        PendingActions { opponent_message, engine_to_move: self.logic.bot.is_some() }
    }
}

/// A click on the board (`g0` to `g1`, with what is left `r`): refused in
/// a TCP game when it is not the player's turn (`click_refused`);
/// otherwise the history is cut at the position looked at (`history_cut`),
/// the click is handled (`click_handled`) and the state is checked again
/// (`state_after_update`).
pub open spec fn cell_click_done(g0: Game, player_color: Option<PieceColor>, g1: Game, r: PendingActions) -> bool {
    if click_refused(g0, player_color) {
        g1 == g0 && r.opponent_message is None && !r.engine_to_move
    } else {
        exists|ga: Game, gb: Game|
            #[trigger] history_cut(g0, ga) && #[trigger] click_handled(ga, gb, r) && {
                &&& g1.logic.game_state == state_after_update(gb.logic.game_board, gb.logic.game_state)
                &&& g1.logic.game_board == gb.logic.game_board
                &&& g1.logic.bot == gb.logic.bot
                &&& g1.logic.opponent == gb.logic.opponent
                &&& g1.logic.player_turn == gb.logic.player_turn
                &&& g1.ui == gb.ui
            }
    }
}

impl Game {
    /// A click on the board (see `cell_click_done`).
    pub fn handle_cell_click(&mut self, player_color: Option<PieceColor>) -> (r: PendingActions)
        requires
            game_ready(*old(self)),
        ensures
            cell_click_done(*old(self), player_color, *final(self), r),
    {
        let none = PendingActions { opponent_message: None, engine_to_move: false };
        if let Some(opponent) = &self.logic.opponent {
            if opponent.is_tcp_multiplayer() {
                if let Some(my_color) = player_color {
                    if self.logic.player_turn != my_color {
                        return none;
                    }
                }
            }
        }
        if let Some(history_index) = self.logic.game_board.history_position_index {
            self.logic.game_board.truncate_history_at(history_index);
        }
        let ghost g1 = *self;
        proof {
            let b = self.logic.game_board;
            assert forall|i: int| 0 <= i < b.move_history@.len() implies move_ok(#[trigger] b.move_history@[i]) by {
                assert(b.move_history@[i] == old(self).logic.game_board.move_history@[i]);
            }
        }
        let actions = if self.logic.game_state == GameState::Promotion {
            let should_flip = self.logic.opponent.is_none() && self.logic.bot.is_none();
            self.handle_promotion(should_flip)
        } else if self.logic.game_state != GameState::Checkmate && self.logic.game_state != GameState::Draw {
            if self.ui.is_cell_selected() {
                let message = self.already_selected_cell_action();
                PendingActions { opponent_message: message, engine_to_move: false }
            } else {
                self.select_cell();
                none
            }
        } else {
            none
        };
        let ghost g2 = *self;
        proof {
            assert(history_cut(*old(self), g1));
            assert(click_handled(g1, g2, actions));
            lemma_fens_len(g1.logic.game_board.position_history@);
        }
        self.logic.update_game_state();
        actions
    }
}

/// The promotion a move text can carry: queen, rook, bishop or knight;
/// any other kind is not written.
pub open spec fn sendable_promotion(p: Option<PieceType>) -> Option<PieceType> {
    match p {
        Some(PieceType::Queen) => p,
        Some(PieceType::Rook) => p,
        Some(PieceType::Bishop) => p,
        Some(PieceType::Knight) => p,
        _ => None,
    }
}

/// What one side sends for a move is read back by the other as the same
/// move: the text of a move with an origin square (`move_text`) is read
/// (`parsed_move_text`) as its origin, its target and its promotion, when
/// the promotion is one a text can carry.
pub proof fn lemma_move_text_read_back(m: ChessMove, p: Option<PieceType>)
    requires
        move_from(m) matches Some(f) && f < 64,
        move_to(m) < 64,
    ensures
        parsed_move_text(move_text(m, p)) == Some((move_from(m)->0, move_to(m), sendable_promotion(p))),
{
    let f = move_from(m)->0;
    let t = move_to(m);
    let s = move_text(m, p);
    let letter = crate::game_logic::opponent::promotion_letter(p);
    assert(s == crate::game_logic::opponent::square_name(f) + crate::game_logic::opponent::square_name(t) + letter);
    reveal_strlit("q");
    reveal_strlit("r");
    reveal_strlit("b");
    reveal_strlit("n");
    assert(letter.len() == 0 || (letter.len() == 1 && ('a' <= letter[0] <= 'z')));
    assert(s.len() == 4 + letter.len());
    assert(s[0] == ((97 + f % 8) as char) && s[1] == ((49 + f / 8) as char));
    assert(s[2] == ((97 + t % 8) as char) && s[3] == ((49 + t / 8) as char));
    assert(utf8_len(s) == s.len()) by {
        lemma_ascii_utf8_len(s);
    }
    assert(square_named(s[0], s[1]) == Some(f));
    assert(square_named(s[2], s[3]) == Some(t));
    if letter.len() == 1 {
        assert(s[4] == letter[0]);
    }
}

/// A text of characters below 128 takes one byte per character.
pub proof fn lemma_ascii_utf8_len(s: Seq<char>)
    requires
        forall|i: int| 0 <= i < s.len() ==> (#[trigger] s[i] as u32) < 128,
    ensures
        utf8_len(s) == s.len(),
    decreases s.len(),
{
    if s.len() > 0 {
        assert forall|i: int| 0 <= i < s.drop_first().len() implies (#[trigger] s.drop_first()[i] as u32) < 128 by {
            assert(s.drop_first()[i] == s[i + 1]);
        }
        lemma_ascii_utf8_len(s.drop_first());
    }
}

} // verus!
