//! The game record: every position reached and every move played, with
//! navigation through the history and the draw, check and promotion rules
//! that read it.
//!
//! `position_history[i]` is the position after `i` moves, so the first entry
//! is the starting position; the last one is the current position, unless
//! the player is looking back through the history.

use vstd::prelude::*;
use crate::board::{Coord, UNDEFINED_POSITION};
use crate::chess::{
    ChessMove, Piece, START_FEN, fen_normal_form, fen_valid, file_of, in_check,
    initial_position, insufficient_material, is_check, is_checkmate, is_insufficient_material,
    is_stalemate, king_of, king_square, legal_moves, legal_moves_in, move_from, move_ok,
    move_promotion, move_role, move_to, normalize_fen, piece_at, piece_on, play,
    position_after, positions_equal, rank_of, same_position, san_of, san_text, side_to_move,
    turn, uci_move_in, uci_parses, uci_syntax_ok, uci_to_move,
};
use crate::pieces::{PieceColor, PieceType};
use crate::text::{
    chars_eq, chars_of, split_char, split_on, split_whitespace, string_of, trim_chars, trimmed,
    views, words,
};

verus! {

/// The record of a game.
#[derive(Debug)]
pub struct GameBoard {
    /// The moves played, in order.
    pub move_history: Vec<ChessMove>,
    /// The positions reached, as FEN; the last is the current position.
    pub position_history: Vec<String>,
    /// The number of consecutive moves without a pawn move or a capture.
    pub consecutive_non_pawn_or_capture: i32,
    /// The pieces taken so far.
    pub taken_pieces: Vec<Piece>,
    /// Whether the board is shown flipped.
    pub is_flipped: bool,
    /// The position being looked at while going through the history; none
    /// means the latest position.
    pub history_position_index: Option<usize>,
    /// The flip state from before going through the history.
    pub original_flip_state: Option<bool>,
}

/// The FENs of a position history.
pub open spec fn fens(ps: Seq<String>) -> Seq<Seq<char>> {
    ps.map_values(|s: String| s@)
}

/// A history has as many FENs as positions.
pub proof fn lemma_fens_len(ps: Seq<String>)
    ensures
        fens(ps).len() == ps.len(),
{
}

/// The index of the position shown: the one navigated to, or the latest.
pub open spec fn viewed_index(hpi: Option<usize>, len: int) -> int {
    match hpi {
        Some(i) => if i < len { i as int } else { len - 1 },
        None => len - 1,
    }
}

/// The number of positions among the first `k` of `ps` that are the same
/// position as `x`.
pub open spec fn count_same(ps: Seq<Seq<char>>, x: Seq<char>, k: int) -> int
    decreases k,
{
    if k <= 0 {
        0
    } else {
        count_same(ps, x, k - 1) + if same_position(ps[k - 1], x) { 1int } else { 0 }
    }
}

/// Some position occurs for the third time: among the positions up to and
/// including it, at least three are the same as it.
pub open spec fn threefold(ps: Seq<Seq<char>>) -> bool {
    exists|i: int| 0 <= i < ps.len() && #[trigger] count_same(ps, ps[i], i + 1) >= 3
}

/// Whether `fen` is stalemate: a legal position with no check and no move.
pub open spec fn stalemate(fen: Seq<char>) -> bool {
    fen_valid(fen) && !in_check(fen) && legal_moves_in(fen).len() == 0
}

/// The target squares of the moves in `ms` that start from `sq`, in order.
pub open spec fn targets_from(ms: Seq<ChessMove>, sq: u8) -> Seq<u8>
    decreases ms.len(),
{
    if ms.len() == 0 {
        seq![]
    } else {
        let rest = targets_from(ms.drop_last(), sq);
        if move_from(ms.last()) == Some(sq) {
            rest.push(move_to(ms.last()))
        } else {
            rest
        }
    }
}

/// The kinds of the pieces of `color` in `ps`, in order.
pub open spec fn roles_of_color(ps: Seq<Piece>, color: PieceColor) -> Seq<PieceType>
    decreases ps.len(),
{
    if ps.len() == 0 {
        seq![]
    } else {
        let rest = roles_of_color(ps.drop_last(), color);
        if ps.last().color == color {
            rest.push(ps.last().role)
        } else {
            rest
        }
    }
}

/// Whether a requested promotion fits a move's promotion: no request fits
/// any move, a request fits only that promotion.
pub open spec fn promotion_fits(requested: Option<PieceType>, actual: Option<PieceType>) -> bool {
    match requested {
        Some(p) => actual == Some(p),
        None => true,
    }
}

/// The first move in `ms` from `from` to `to` that fits the promotion.
pub open spec fn first_matching(
    ms: Seq<ChessMove>,
    from: u8,
    to: u8,
    promotion: Option<PieceType>,
    k: int,
) -> Option<int>
    decreases ms.len() - k,
{
    if k < 0 || k >= ms.len() {
        None
    } else if move_from(ms[k]) == Some(from) && move_to(ms[k]) == to && promotion_fits(
        promotion,
        move_promotion(ms[k]),
    ) {
        Some(k)
    } else {
        first_matching(ms, from, to, promotion, k + 1)
    }
}

/// The first castling move in `ms` starting from `from`.
pub open spec fn first_castle_from(ms: Seq<ChessMove>, from: u8, k: int) -> Option<int>
    decreases ms.len() - k,
{
    if k < 0 || k >= ms.len() {
        None
    } else if ms[k] is Castle && move_from(ms[k]) == Some(from) {
        Some(k)
    } else {
        first_castle_from(ms, from, k + 1)
    }
}

/// A king of the side to move going two files along its rank: a castling
/// attempt.
pub open spec fn castling_attempt(fen: Seq<char>, from: u8, to: u8) -> bool {
    match piece_on(fen, from) {
        Some(p) => p.role == PieceType::King && p.color == side_to_move(fen) && rank_of(
            from as int,
        ) == rank_of(to as int) && (file_of(from as int) - file_of(to as int) == 2 || file_of(
            to as int,
        ) - file_of(from as int) == 2),
        None => false,
    }
}

/// The move `execute_move` plays from `fen`: the first legal move from
/// `from` to `to` that fits the promotion, or else, for a castling attempt,
/// the first castling move from `from`.
pub open spec fn chosen_move(fen: Seq<char>, from: u8, to: u8, promotion: Option<PieceType>) -> Option<ChessMove> {
    let ms = legal_moves_in(fen);
    match first_matching(ms, from, to, promotion, 0) {
        Some(i) => Some(ms[i]),
        None => if castling_attempt(fen, from, to) {
            match first_castle_from(ms, from, 0) {
                Some(i) => Some(ms[i]),
                None => None,
            }
        } else {
            None
        },
    }
}

/// The first castling move from `from` at or after `k` is found when there
/// is one.
proof fn lemma_first_castle_found(ms: Seq<ChessMove>, from: u8, k: int, j: int)
    requires
        0 <= k <= j < ms.len(),
        ms[j] is Castle,
        move_from(ms[j]) == Some(from),
    ensures
        first_castle_from(ms, from, k) matches Some(i) && k <= i < ms.len() && ms[i] is Castle
            && move_from(ms[i]) == Some(from),
    decreases j - k,
{
    if !(ms[k] is Castle && move_from(ms[k]) == Some(from)) {
        lemma_first_castle_found(ms, from, k + 1, j);
    }
}

/// What `first_matching` finds is a move from `from` to `to`.
proof fn lemma_first_matching_fits(ms: Seq<ChessMove>, from: u8, to: u8, promotion: Option<PieceType>, k: int)
    requires
        0 <= k,
    ensures
        first_matching(ms, from, to, promotion, k) matches Some(i) ==> k <= i < ms.len()
            && move_from(ms[i]) == Some(from) && move_to(ms[i]) == to,
    decreases ms.len() - k,
{
    if k < ms.len() && !(move_from(ms[k]) == Some(from) && move_to(ms[k]) == to && promotion_fits(
        promotion,
        move_promotion(ms[k]),
    )) {
        lemma_first_matching_fits(ms, from, to, promotion, k + 1);
    }
}

/// Castling by moving the king two files: when the piece on `from` is the
/// king of the side to move and `to` is two files from it, on its rank, in
/// either direction (towards the h-file or the a-file), and a castling move
/// from `from` is legal, the move played (`execute_move`'s result,
/// `chosen_move`) is a legal move from `from`: the castling move, unless a
/// legal move goes from `from` to `to` itself.
pub proof fn lemma_king_two_files_castles(fen: Seq<char>, from: u8, to: u8)
    requires
        from < 64,
        to < 64,
        piece_on(fen, from) matches Some(p) && p.role == PieceType::King && p.color == side_to_move(fen),
        rank_of(from as int) == rank_of(to as int),
        file_of(to as int) == file_of(from as int) + 2 || file_of(to as int) == file_of(from as int) - 2,
        exists|j: int|
            0 <= j < legal_moves_in(fen).len() && #[trigger] legal_moves_in(fen)[j] is Castle && move_from(
                legal_moves_in(fen)[j],
            ) == Some(from),
    ensures
        chosen_move(fen, from, to, None) matches Some(m) && legal_moves_in(fen).contains(m) && move_from(m)
            == Some(from) && (m is Castle || move_to(m) == to),
{
    let ms = legal_moves_in(fen);
    let j = choose|j: int|
        0 <= j < legal_moves_in(fen).len() && #[trigger] legal_moves_in(fen)[j] is Castle && move_from(
            legal_moves_in(fen)[j],
        ) == Some(from);
    lemma_first_matching_fits(ms, from, to, None, 0);
    lemma_first_castle_found(ms, from, 0, j);
    assert(castling_attempt(fen, from, to));
    match first_matching(ms, from, to, None, 0) {
        Some(i) => {
            assert(ms.contains(ms[i]));
        },
        None => {
            let i = first_castle_from(ms, from, 0)->0;
            assert(ms.contains(ms[i]));
        },
    }
}

/// Replaying UCI move texts from `pos`: text that is not a UCI move is
/// skipped; the first one that is not legal stops the replay. Gives the
/// moves played, the positions reached and the pieces standing on the
/// target squares (for castling, the rook's square).
pub open spec fn replay(pos: Seq<char>, toks: Seq<Seq<char>>) -> (Seq<ChessMove>, Seq<Seq<char>>, Seq<Piece>)
    decreases toks.len(),
{
    if toks.len() == 0 {
        (seq![], seq![], seq![])
    } else if !uci_syntax_ok(toks[0]) {
        replay(pos, toks.drop_first())
    } else {
        match uci_move_in(pos, toks[0]) {
            None => (seq![], seq![], seq![]),
            Some(m) => {
                let cap = match piece_on(pos, move_to(m)) {
                    Some(p) => seq![p],
                    None => seq![],
                };
                match position_after(pos, m) {
                    Some(next) => {
                        let r = replay(next, toks.drop_first());
                        (seq![m] + r.0, seq![next] + r.1, cap + r.2)
                    },
                    None => (seq![], seq![], cap),
                }
            },
        }
    }
}

/// Whether two FENs agree on their first four fields (pieces, side to move,
/// castling, en passant), both having at least four.
pub open spec fn same_first_fields(a: Seq<char>, b: Seq<char>) -> bool {
    let fa = split_on(a, ' ');
    let fb = split_on(b, ' ');
    fa.len() >= 4 && fb.len() >= 4 && fa.subrange(0, 4) == fb.subrange(0, 4)
}

/// The board flip that goes with a position index: in solo mode the board
/// turns after every move, so odd indices are flipped; otherwise the
/// current flip state stays.
pub open spec fn flip_for_index(current: bool, index: int, solo: bool) -> bool {
    if !solo { current } else { index % 2 == 1 }
}

/// The taken pieces after a move to `to` in position `fen`: the piece
/// standing on `to`, if any, is added.
pub open spec fn taken_after(taken: Seq<Piece>, fen: Seq<char>, to: u8) -> Seq<Piece> {
    match piece_on(fen, to) {
        Some(p) => taken.push(p),
        None => taken,
    }
}

/// What playing from `from` to `to` does to the positions, the taken pieces
/// and the navigation of `before`, giving `after`: the move chosen in the
/// shown position is played and its position recorded, and the view goes
/// back to the latest position; with no such move the positions and the
/// view stay. The piece on `to` is counted as taken either way. (The flip
/// of the board is not part of it.)
pub open spec fn positions_after_move(
    before: GameBoard,
    after: GameBoard,
    from: u8,
    to: u8,
    promotion: Option<PieceType>,
) -> bool {
    let s = before.shown();
    &&& after.taken_pieces@ == taken_after(before.taken_pieces@, s, to)
    &&& match chosen_move(s, from, to, promotion) {
        Some(m) => {
            &&& after.fens() == before.fens().push(position_after(s, m)->0)
            &&& after.history_position_index is None
            &&& after.original_flip_state is None
        },
        None => {
            &&& after.position_history@ == before.position_history@
            &&& after.history_position_index == before.history_position_index
            &&& after.original_flip_state == before.original_flip_state
        },
    }
}

impl Default for GameBoard {
    /// The starting position, no moves, not flipped, at the latest position.
    fn default() -> (r: GameBoard)
        ensures
            r.move_history@.len() == 0,
            fens(r.position_history@) == seq![START_FEN@],
            r.consecutive_non_pawn_or_capture == 0,
            r.taken_pieces@.len() == 0,
            !r.is_flipped,
            r.history_position_index is None,
            r.original_flip_state is None,
    {
        let mut positions: Vec<String> = Vec::new();
        positions.push(initial_position());
        let r = GameBoard {
            move_history: Vec::new(),
            position_history: positions,
            consecutive_non_pawn_or_capture: 0,
            taken_pieces: Vec::new(),
            is_flipped: false,
            history_position_index: None,
            original_flip_state: None,
        };
        proof { assert(fens(r.position_history@) =~= seq![START_FEN@]); }
        r
    }
}

impl Clone for GameBoard {
    /// A copy of the record.
    fn clone(&self) -> (r: GameBoard)
        ensures
            r.move_history@ == self.move_history@,
            r.position_history@ == self.position_history@,
            r.taken_pieces@ == self.taken_pieces@,
            r.consecutive_non_pawn_or_capture == self.consecutive_non_pawn_or_capture,
            r.is_flipped == self.is_flipped,
            r.history_position_index == self.history_position_index,
            r.original_flip_state == self.original_flip_state,
    {
        let mut moves: Vec<ChessMove> = Vec::new();
        let mut i: usize = 0;
        while i < self.move_history.len()
            invariant
                i <= self.move_history@.len(),
                moves@ == self.move_history@.subrange(0, i as int),
            decreases self.move_history@.len() - i,
        {
            moves.push(self.move_history[i]);
            proof {
                assert(self.move_history@.subrange(0, i as int + 1) =~= self.move_history@.subrange(0, i as int).push(
                    self.move_history@[i as int],
                ));
            }
            i += 1;
        }
        let mut positions: Vec<String> = Vec::new();
        let mut j: usize = 0;
        while j < self.position_history.len()
            invariant
                j <= self.position_history@.len(),
                positions@ == self.position_history@.subrange(0, j as int),
            decreases self.position_history@.len() - j,
        {
            positions.push(self.position_history[j].clone());
            proof {
                assert(self.position_history@.subrange(0, j as int + 1) =~= self.position_history@.subrange(
                    0,
                    j as int,
                ).push(self.position_history@[j as int]));
            }
            j += 1;
        }
        let mut taken: Vec<Piece> = Vec::new();
        let mut k: usize = 0;
        while k < self.taken_pieces.len()
            invariant
                k <= self.taken_pieces@.len(),
                taken@ == self.taken_pieces@.subrange(0, k as int),
            decreases self.taken_pieces@.len() - k,
        {
            taken.push(self.taken_pieces[k]);
            proof {
                assert(self.taken_pieces@.subrange(0, k as int + 1) =~= self.taken_pieces@.subrange(0, k as int).push(
                    self.taken_pieces@[k as int],
                ));
            }
            k += 1;
        }
        proof {
            assert(self.move_history@.subrange(0, self.move_history@.len() as int) =~= self.move_history@);
            assert(self.position_history@.subrange(0, self.position_history@.len() as int) =~= self.position_history@);
            assert(self.taken_pieces@.subrange(0, self.taken_pieces@.len() as int) =~= self.taken_pieces@);
        }
        GameBoard {
            move_history: moves,
            position_history: positions,
            consecutive_non_pawn_or_capture: self.consecutive_non_pawn_or_capture,
            taken_pieces: taken,
            is_flipped: self.is_flipped,
            history_position_index: self.history_position_index,
            original_flip_state: self.original_flip_state,
        }
    }
}

impl GameBoard {
    /// The FENs of the positions reached.
    pub open spec fn fens(&self) -> Seq<Seq<char>> {
        fens(self.position_history@)
    }

    /// The FEN of the position shown.
    pub open spec fn shown(&self) -> Seq<char> {
        self.fens()[viewed_index(self.history_position_index, self.fens().len() as int)]
    }

    /// Whether the shown position is checkmate.
    pub open spec fn in_checkmate(&self) -> bool {
        in_check(self.shown()) && legal_moves_in(self.shown()).len() == 0
    }

    /// Whether the game is drawn: stalemate in the shown position, fifty
    /// moves without a pawn move or a capture, threefold repetition, or
    /// insufficient material in the shown position.
    pub open spec fn drawn(&self) -> bool {
        stalemate(self.shown()) || self.consecutive_non_pawn_or_capture == 50
            || threefold(self.fens()) || insufficient_material(self.shown())
    }

    /// Whether the last move took a pawn to the first or eighth rank with no
    /// promotion chosen yet.
    pub open spec fn awaiting_promotion(&self) -> bool {
        self.move_history@.len() > 0 && ({
            let m = self.move_history@.last();
            move_role(m) == PieceType::Pawn && (rank_of(move_to(m) as int) == 0 || rank_of(
                move_to(m) as int,
            ) == 7) && move_promotion(m) is None
        })
    }

    /// Every move in the record names squares on the board.
    pub open spec fn moves_ok(&self) -> bool {
        forall|i: int| 0 <= i < self.move_history@.len() ==> move_ok(#[trigger] self.move_history@[i])
    }

    /// The Standard Algebraic Notation of move `move_index`, in the position
    /// it was played from; empty when there is no such move.
    pub fn move_to_san(&self, move_index: usize) -> (r: String)
        ensures
            (move_index < self.move_history@.len() && move_index < self.position_history@.len()
                && move_ok(self.move_history@[move_index as int])) ==> r@ == san_text(
                self.fens()[move_index as int],
                self.move_history@[move_index as int],
            ),
            !(move_index < self.move_history@.len() && move_index < self.position_history@.len())
                ==> r@ == Seq::<char>::empty(),
    {
        if move_index >= self.move_history.len() || move_index >= self.position_history.len() {
            return String::new();
        }
        let m = self.move_history[move_index];
        if !is_move_ok(&m) {
            return String::new();
        }
        san_of(self.position_history[move_index].as_str(), &m)
    }

    /// After a move: a pawn move or a capture resets the count of moves
    /// without either, anything else adds one to it.
    pub fn increment_consecutive_non_pawn_or_capture(
        &mut self,
        role_from: PieceType,
        role_to: Option<PieceType>,
    )
        requires
            old(self).consecutive_non_pawn_or_capture < i32::MAX,
        ensures
            final(self).consecutive_non_pawn_or_capture == (if role_from == PieceType::Pawn
                || role_to is Some {
                0
            } else {
                old(self).consecutive_non_pawn_or_capture + 1
            }),
            final(self).position_history@ == old(self).position_history@,
            final(self).move_history@ == old(self).move_history@,
            final(self).taken_pieces@ == old(self).taken_pieces@,
            final(self).is_flipped == old(self).is_flipped,
            final(self).history_position_index == old(self).history_position_index,
            final(self).original_flip_state == old(self).original_flip_state,
    {
        match (role_from, role_to) {
            (PieceType::Pawn, _) | (_, Some(_)) => {
                self.consecutive_non_pawn_or_capture = 0;
            },
            _ => {
                self.consecutive_non_pawn_or_capture = self.consecutive_non_pawn_or_capture + 1;
            },
        }
    }

    /// Back to the starting position with no moves; taken pieces stay.
    pub fn reset(&mut self)
        ensures
            final(self).move_history@.len() == 0,
            final(self).fens() == seq![START_FEN@],
            final(self).consecutive_non_pawn_or_capture == 0,
            !final(self).is_flipped,
            final(self).history_position_index is None,
            final(self).original_flip_state is None,
            final(self).taken_pieces@ == old(self).taken_pieces@,
    {
        self.move_history.clear();
        self.position_history.clear();
        self.position_history.push(initial_position());
        self.consecutive_non_pawn_or_capture = 0;
        self.is_flipped = false;
        self.history_position_index = None;
        self.original_flip_state = None;
        proof { assert(self.fens() =~= seq![START_FEN@]); }
    }

    /// The position shown: the one navigated to, or the latest.
    pub fn position_ref(&self) -> (r: &String)
        requires
            self.position_history@.len() > 0,
        ensures
            r@ == self.shown(),
    {
        if let Some(index) = self.history_position_index {
            if index < self.position_history.len() {
                return &self.position_history[index];
            }
        }
        &self.position_history[self.position_history.len() - 1]
    }

    /// The position shown, or none when the navigated index or the history
    /// has no position.
    pub fn current_position(&self) -> (r: Option<&String>)
        ensures
            match self.history_position_index {
                Some(i) => if i < self.position_history@.len() {
                    r matches Some(s) && s@ == self.fens()[i as int]
                } else {
                    r is None
                },
                None => if self.position_history@.len() > 0 {
                    r matches Some(s) && s@ == self.fens().last()
                } else {
                    r is None
                },
            },
    {
        match self.history_position_index {
            Some(index) => {
                if index < self.position_history.len() {
                    Some(&self.position_history[index])
                } else {
                    None
                }
            },
            None => {
                if self.position_history.len() > 0 {
                    Some(&self.position_history[self.position_history.len() - 1])
                } else {
                    None
                }
            },
        }
    }

    /// Whether some position has occurred three times.
    pub fn is_draw_by_repetition(&self) -> (r: bool)
        ensures
            r == threefold(self.fens()),
    {
        let ghost ps = self.fens();
        let n = self.position_history.len();
        let mut i: usize = 0;
        while i < n
            invariant
                n == ps.len(),
                ps == self.fens(),
                i <= n,
                forall|k: int| 0 <= k < i ==> #[trigger] count_same(ps, ps[k], k + 1) < 3,
            decreases n - i,
        {
            let mut count: usize = 0;
            let mut j: usize = 0;
            while j <= i
                invariant
                    n == ps.len(),
                    ps == self.fens(),
                    i < n,
                    j <= i + 1,
                    count == count_same(ps, ps[i as int], j as int),
                    count <= j,
                decreases i + 1 - j,
            {
                if positions_equal(self.position_history[j].as_str(), self.position_history[i].as_str()) {
                    count += 1;
                }
                j += 1;
            }
            if count >= 3 {
                return true;
            }
            i += 1;
        }
        false
    }

    /// Whether the game is drawn: stalemate in the shown position, fifty
    /// moves without a pawn move or a capture, threefold repetition, or
    /// insufficient material in the shown position.
    pub fn is_draw(&self) -> (r: bool)
        requires
            self.position_history@.len() > 0,
        ensures
            r == self.drawn(),
    {
        let chess = self.position_ref();
        is_stalemate(chess.as_str()) || self.consecutive_non_pawn_or_capture == 50
            || self.is_draw_by_repetition() || is_insufficient_material(chess.as_str())
    }

    /// Whether the last move took a pawn to the first or eighth rank with no
    /// promotion chosen yet.
    pub fn is_latest_move_promotion(&self) -> (r: bool)
        ensures
            r == self.awaiting_promotion(),
    {
        if self.move_history.len() == 0 {
            return false;
        }
        let last = self.move_history[self.move_history.len() - 1];
        let to = last.to();
        last.role() == PieceType::Pawn && (to / 8 == 0 || to / 8 == 7) && last.promotion().is_none()
    }

    /// The kind of piece on a square of the shown position.
    pub fn get_role_at_square(&self, square: u8) -> (r: Option<PieceType>)
        requires
            square < 64,
            self.position_history@.len() > 0,
        ensures
            r == (match piece_on(self.shown(), square) {
                Some(p) => Some(p.role),
                None => None,
            }),
    {
        match piece_at(self.position_ref().as_str(), square) {
            Some(p) => Some(p.role),
            None => None,
        }
    }

    /// Whether a square of the shown position holds a piece.
    pub fn is_square_occupied(&self, square: u8) -> (r: bool)
        requires
            square < 64,
            self.position_history@.len() > 0,
        ensures
            r == piece_on(self.shown(), square) is Some,
    {
        piece_at(self.position_ref().as_str(), square).is_some()
    }

    /// The color of the piece on a square of the shown position.
    pub fn get_piece_color_at_square(&self, square: u8) -> (r: Option<PieceColor>)
        requires
            square < 64,
            self.position_history@.len() > 0,
        ensures
            r == (match piece_on(self.shown(), square) {
                Some(p) => Some(p.color),
                None => None,
            }),
    {
        match piece_at(self.position_ref().as_str(), square) {
            Some(p) => Some(p.color),
            None => None,
        }
    }

    /// The squares the piece on `square` can legally move to, in the engine's
    /// order; none unless the piece there belongs to `player_turn`.
    pub fn get_authorized_positions(&self, player_turn: PieceColor, square: u8) -> (r: Vec<u8>)
        requires
            square < 64,
            self.position_history@.len() > 0,
        ensures
            r@ == (match piece_on(self.shown(), square) {
                Some(p) => if p.color == player_turn {
                    targets_from(legal_moves_in(self.shown()), square)
                } else {
                    seq![]
                },
                None => seq![],
            }),
            forall|i: int| 0 <= i < r@.len() ==> #[trigger] r@[i] < 64,
    {
        let fen = self.position_ref();
        match piece_at(fen.as_str(), square) {
            Some(p) => {
                if p.color != player_turn {
                    return Vec::new();
                }
            },
            None => {
                return Vec::new();
            },
        }
        let ms = legal_moves(fen.as_str());
        let mut out: Vec<u8> = Vec::new();
        let mut i: usize = 0;
        while i < ms.len()
            invariant
                i <= ms@.len(),
                out@ == targets_from(ms@.subrange(0, i as int), square),
                forall|j: int| 0 <= j < ms@.len() ==> move_ok(#[trigger] ms@[j]),
                forall|j: int| 0 <= j < out@.len() ==> #[trigger] out@[j] < 64,
            decreases ms@.len() - i,
        {
            let m = ms[i];
            proof {
                assert(ms@.subrange(0, i as int + 1).drop_last() =~= ms@.subrange(0, i as int));
                assert(move_ok(ms@[i as int]));
            }
            if m.from() == Some(square) {
                out.push(m.to());
            }
            i += 1;
        }
        proof { assert(ms@.subrange(0, ms@.len() as int) =~= ms@); }
        out
    }

    /// Whether `player_turn` is to move and in check in the shown position.
    pub fn is_getting_checked(&self, player_turn: PieceColor) -> (r: bool)
        requires
            self.position_history@.len() > 0,
        ensures
            r == (in_check(self.shown()) && side_to_move(self.shown()) == player_turn),
    {
        let chess = self.position_ref();
        is_check(chess.as_str()) && turn(chess.as_str()) == player_turn
    }

    /// Where the king of `color` is shown: its square as (row, col), turned
    /// around when the board is flipped; undefined when there is no single
    /// king of that color.
    pub fn get_king_coordinates(&self, color: PieceColor) -> (r: Coord)
        requires
            self.position_history@.len() > 0,
        ensures
            match king_square(self.shown(), color) {
                None => r.row == UNDEFINED_POSITION && r.col == UNDEFINED_POSITION,
                Some(sq) => if self.is_flipped {
                    r.row == sq / 8 && r.col == 7 - sq % 8
                } else {
                    r.row == 7 - sq / 8 && r.col == sq % 8
                },
            },
    {
        let king_square = match king_of(self.position_ref().as_str(), color) {
            Some(sq) => sq,
            None => {
                return Coord::undefined();
            },
        };
        let coord = Coord::new(7 - king_square / 8, king_square % 8);
        if self.is_flipped {
            Coord::new(7 - coord.row, 7 - coord.col)
        } else {
            coord
        }
    }

    /// Whether the shown position is checkmate.
    pub fn is_checkmate(&self) -> (r: bool)
        requires
            self.position_history@.len() > 0,
        ensures
            r == self.in_checkmate(),
    {
        is_checkmate(self.position_ref().as_str())
    }

    /// Turns the board around.
    pub fn flip_the_board(&mut self)
        ensures
            final(self).is_flipped == !old(self).is_flipped,
            final(self).position_history@ == old(self).position_history@,
            final(self).move_history@ == old(self).move_history@,
            final(self).history_position_index == old(self).history_position_index,
            final(self).original_flip_state == old(self).original_flip_state,
            final(self).taken_pieces@ == old(self).taken_pieces@,
            final(self).consecutive_non_pawn_or_capture == old(self).consecutive_non_pawn_or_capture,
    {
        self.is_flipped = !self.is_flipped;
    }

    /// The FEN of the shown position, for the engine.
    pub fn fen_position(&self) -> (r: String)
        requires
            self.position_history@.len() > 0,
        ensures
            r@ == self.shown(),
    {
        self.position_ref().clone()
    }

    /// The kinds of the black pieces taken, in the order they were taken.
    pub fn black_taken_pieces(&self) -> (r: Vec<PieceType>)
        ensures
            r@ == roles_of_color(self.taken_pieces@, PieceColor::Black),
    {
        taken_of_color(&self.taken_pieces, PieceColor::Black)
    }

    /// The kinds of the white pieces taken, in the order they were taken.
    pub fn white_taken_pieces(&self) -> (r: Vec<PieceType>)
        ensures
            r@ == roles_of_color(self.taken_pieces@, PieceColor::White),
    {
        taken_of_color(&self.taken_pieces, PieceColor::White)
    }
}

/// Whether all squares of a move are on the board.
pub fn is_move_ok(m: &ChessMove) -> (r: bool)
    ensures
        r == move_ok(*m),
{
    match *m {
        ChessMove::Normal { from, to, .. } => from < 64 && to < 64,
        ChessMove::EnPassant { from, to } => from < 64 && to < 64,
        ChessMove::Castle { king, rook } => king < 64 && rook < 64,
        ChessMove::Put { to, .. } => to < 64,
    }
}

/// The kinds of the pieces of `color` among `ps`.
fn taken_of_color(ps: &Vec<Piece>, color: PieceColor) -> (r: Vec<PieceType>)
    ensures
        r@ == roles_of_color(ps@, color),
{
    let mut out: Vec<PieceType> = Vec::new();
    let mut i: usize = 0;
    while i < ps.len()
        invariant
            i <= ps@.len(),
            out@ == roles_of_color(ps@.subrange(0, i as int), color),
        decreases ps@.len() - i,
    {
        proof {
            assert(ps@.subrange(0, i as int + 1).drop_last() =~= ps@.subrange(0, i as int));
        }
        if ps[i].color == color {
            out.push(ps[i].role);
        }
        i += 1;
    }
    proof { assert(ps@.subrange(0, ps@.len() as int) =~= ps@); }
    out
}

impl GameBoard {
    /// Plays a move from `from` to `to` in the shown position and records
    /// the new position. The piece on `to`, if any, is counted as taken. The
    /// move played is the first legal one between those squares that fits
    /// the promotion (a move that promotes fits when no promotion is asked
    /// for); failing that, when a king of the side to move steps two files,
    /// the first castling move from its square. Returns the move played,
    /// and goes back to looking at the latest position; with no such move,
    /// the positions stay as they were.
    #[verifier::loop_isolation(false)]
    pub fn execute_move(&mut self, from: u8, to: u8, promotion: Option<PieceType>) -> (r: Option<ChessMove>)
        requires
            from < 64,
            to < 64,
            old(self).position_history@.len() > 0,
        ensures
            r == chosen_move(old(self).shown(), from, to, promotion),
            positions_after_move(*old(self), *final(self), from, to, promotion),
            final(self).is_flipped == old(self).is_flipped,
            r matches Some(m) ==> move_ok(m) && position_after(old(self).shown(), m) is Some,
            final(self).move_history@ == old(self).move_history@,
            final(self).consecutive_non_pawn_or_capture == old(self).consecutive_non_pawn_or_capture,
    {
        let chess = self.position_ref().clone();
        let ghost fen = chess@;
        if let Some(captured) = piece_at(chess.as_str(), to) {
            self.taken_pieces.push(captured);
        }
        let legal = legal_moves(chess.as_str());
        let is_potential_castling = match piece_at(chess.as_str(), from) {
            Some(piece) => piece.role == PieceType::King && piece.color == turn(chess.as_str())
                && from / 8 == to / 8 && (from % 8 == to % 8 + 2 || to % 8 == from % 8 + 2),
            None => false,
        };
        proof {
            assert(is_potential_castling == castling_attempt(fen, from, to));
        }
        let ghost snapshot = *self;
        let mut i: usize = 0;
        while i < legal.len()
            invariant
                i <= legal@.len(),
                legal@ == legal_moves_in(fen),
                *self == snapshot,
                first_matching(legal@, from, to, promotion, 0) == first_matching(
                    legal@,
                    from,
                    to,
                    promotion,
                    i as int,
                ),
            decreases legal@.len() - i,
        {
            let m = legal[i];
            let fits = match promotion {
                Some(p) => m.promotion() == Some(p),
                None => true,
            };
            if m.from() == Some(from) && m.to() == to && fits {
                proof { assert(legal@[i as int] == m); }
                return self.record_played(&chess, &m);
            }
            i += 1;
        }
        if is_potential_castling {
            let mut k: usize = 0;
            while k < legal.len()
                invariant
                    k <= legal@.len(),
                    legal@ == legal_moves_in(fen),
                    *self == snapshot,
                    first_castle_from(legal@, from, 0) == first_castle_from(legal@, from, k as int),
                decreases legal@.len() - k,
            {
                let m = legal[k];
                if m.is_castle() && m.from() == Some(from) {
                    proof { assert(legal@[k as int] == m); }
                    return self.record_played(&chess, &m);
                }
                k += 1;
            }
        }
        None
    }

    /// Plays a legal move of `fen` and records the position it leads to.
    fn record_played(&mut self, fen: &String, m: &ChessMove) -> (r: Option<ChessMove>)
        requires
            legal_moves_in(fen@).contains(*m),
            !fen_valid(fen@) ==> legal_moves_in(fen@).len() == 0,
            forall|i: int| 0 <= i < legal_moves_in(fen@).len() ==> move_ok(#[trigger] legal_moves_in(fen@)[i]),
        ensures
            r == Some(*m),
            move_ok(*m),
            position_after(fen@, *m) is Some,
            final(self).fens() == old(self).fens().push(position_after(fen@, *m)->0),
            final(self).history_position_index is None,
            final(self).original_flip_state is None,
            final(self).taken_pieces@ == old(self).taken_pieces@,
            final(self).move_history@ == old(self).move_history@,
            final(self).is_flipped == old(self).is_flipped,
            final(self).consecutive_non_pawn_or_capture == old(self).consecutive_non_pawn_or_capture,
    {
        proof {
            let k = choose|k: int| 0 <= k < legal_moves_in(fen@).len() && legal_moves_in(fen@)[k] == *m;
            assert(move_ok(legal_moves_in(fen@)[k]));
        }
        let next = play(fen.as_str(), m);
        match next {
            Some(n) => {
                let ghost before = self.position_history@;
                self.position_history.push(n);
                self.history_position_index = None;
                self.original_flip_state = None;
                proof { assert(self.fens() =~= fens(before).push(position_after(fen@, *m)->0)); }
                Some(*m)
            },
            None => None,
        }
    }

    /// Plays a move from `from` to `to` without a promotion request.
    pub fn execute_shakmaty_move(&mut self, from: u8, to: u8) -> (r: Option<ChessMove>)
        requires
            from < 64,
            to < 64,
            old(self).position_history@.len() > 0,
        ensures
            r == chosen_move(old(self).shown(), from, to, None),
            r matches Some(m) ==> move_ok(m),
            positions_after_move(*old(self), *final(self), from, to, None),
            final(self).is_flipped == old(self).is_flipped,
            final(self).move_history@ == old(self).move_history@,
            final(self).consecutive_non_pawn_or_capture == old(self).consecutive_non_pawn_or_capture,
    {
        self.execute_move(from, to, None)
    }

    /// Plays a move given in standard coordinates (from the engine or the
    /// opponent).
    pub fn execute_standard_move(&mut self, from: u8, to: u8, promotion: Option<PieceType>) -> (r: Option<ChessMove>)
        requires
            from < 64,
            to < 64,
            old(self).position_history@.len() > 0,
        ensures
            r == chosen_move(old(self).shown(), from, to, promotion),
            r matches Some(m) ==> move_ok(m),
            positions_after_move(*old(self), *final(self), from, to, promotion),
            final(self).is_flipped == old(self).is_flipped,
            final(self).move_history@ == old(self).move_history@,
            final(self).consecutive_non_pawn_or_capture == old(self).consecutive_non_pawn_or_capture,
    {
        self.execute_move(from, to, promotion)
    }

    /// Plays a move with an optional promotion; whether one was played.
    pub fn execute_shakmaty_move_with_promotion(&mut self, from: u8, to: u8, promotion: Option<PieceType>) -> (r: bool)
        requires
            from < 64,
            to < 64,
            old(self).position_history@.len() > 0,
        ensures
            r == chosen_move(old(self).shown(), from, to, promotion) is Some,
            positions_after_move(*old(self), *final(self), from, to, promotion),
            final(self).is_flipped == old(self).is_flipped,
            final(self).move_history@ == old(self).move_history@,
            final(self).consecutive_non_pawn_or_capture == old(self).consecutive_non_pawn_or_capture,
    {
        self.execute_move(from, to, promotion).is_some()
    }

    /// The flip state for a position index: alternating in solo mode, the
    /// current one otherwise.
    fn get_flip_state_for_index(&self, index: usize, is_solo_mode: bool) -> (r: bool)
        ensures
            r == flip_for_index(self.is_flipped, index as int, is_solo_mode),
    {
        if !is_solo_mode {
            return self.is_flipped;
        }
        (index % 2) == 1
    }

    /// Looks one position further forward in the history. From the
    /// second-to-last position or earlier this moves one on; from the last
    /// one it returns to following the latest position and restores the flip
    /// state from before. False when already following the latest position.
    pub fn navigate_history_next(&mut self, is_solo_mode: bool) -> (r: bool)
        ensures
            final(self).position_history@ == old(self).position_history@,
            final(self).move_history@ == old(self).move_history@,
            old(self).position_history@.len() == 0 ==> !r && *final(self) == *old(self),
            old(self).position_history@.len() > 0 ==> match old(self).history_position_index {
                None => !r && *final(self) == *old(self),
                Some(i) => r && if i < old(self).position_history@.len() - 1 {
                    &&& final(self).history_position_index == Some((i + 1) as usize)
                    &&& final(self).is_flipped == flip_for_index(old(self).is_flipped, i + 1, is_solo_mode)
                    &&& final(self).original_flip_state == old(self).original_flip_state
                } else {
                    &&& final(self).history_position_index is None
                    &&& final(self).original_flip_state is None
                    &&& final(self).is_flipped == match old(self).original_flip_state {
                        Some(f) => f,
                        None => flip_for_index(
                            old(self).is_flipped,
                            old(self).position_history@.len() - 1,
                            is_solo_mode,
                        ),
                    }
                },
            },
    {
        if self.position_history.len() == 0 {
            return false;
        }
        let max_index = self.position_history.len() - 1;
        match self.history_position_index {
            None => false,
            Some(index) => {
                if index < max_index {
                    let new_index = index + 1;
                    self.history_position_index = Some(new_index);
                    self.is_flipped = self.get_flip_state_for_index(new_index, is_solo_mode);
                    true
                } else {
                    self.history_position_index = None;
                    if let Some(original_flip) = self.original_flip_state {
                        self.original_flip_state = None;
                        self.is_flipped = original_flip;
                    } else {
                        self.is_flipped = self.get_flip_state_for_index(max_index, is_solo_mode);
                    }
                    true
                }
            },
        }
    }

    /// Looks one position further back in the history. From the latest
    /// position (with at least two) this goes to the one before and
    /// remembers the flip state; from an earlier one it moves one back.
    /// False at the first position.
    pub fn navigate_history_previous(&mut self, is_solo_mode: bool) -> (r: bool)
        ensures
            final(self).position_history@ == old(self).position_history@,
            final(self).move_history@ == old(self).move_history@,
            old(self).position_history@.len() == 0 ==> !r && *final(self) == *old(self),
            old(self).position_history@.len() > 0 ==> match old(self).history_position_index {
                None => if old(self).position_history@.len() > 1 {
                    &&& r
                    &&& final(self).original_flip_state == Some(old(self).is_flipped)
                    &&& final(self).history_position_index == Some(
                        (old(self).position_history@.len() - 2) as usize,
                    )
                    &&& final(self).is_flipped == flip_for_index(
                        old(self).is_flipped,
                        old(self).position_history@.len() - 2,
                        is_solo_mode,
                    )
                } else {
                    !r && *final(self) == *old(self)
                },
                Some(i) => if i > 0 {
                    &&& r
                    &&& final(self).history_position_index == Some((i - 1) as usize)
                    &&& final(self).is_flipped == flip_for_index(old(self).is_flipped, i - 1, is_solo_mode)
                    &&& final(self).original_flip_state == old(self).original_flip_state
                } else {
                    !r && *final(self) == *old(self)
                },
            },
    {
        if self.position_history.len() == 0 {
            return false;
        }
        match self.history_position_index {
            None => {
                if self.position_history.len() > 1 {
                    self.original_flip_state = Some(self.is_flipped);
                    let prev_index = self.position_history.len() - 2;
                    self.history_position_index = Some(prev_index);
                    self.is_flipped = self.get_flip_state_for_index(prev_index, is_solo_mode);
                    true
                } else {
                    false
                }
            },
            Some(index) => {
                if index > 0 {
                    let new_index = index - 1;
                    self.history_position_index = Some(new_index);
                    self.is_flipped = self.get_flip_state_for_index(new_index, is_solo_mode);
                    true
                } else {
                    false
                }
            },
        }
    }

    /// Goes back to following the latest position, restoring the flip state
    /// from before navigating (or the one of the latest index).
    pub fn reset_history_navigation(&mut self, is_solo_mode: bool)
        ensures
            final(self).position_history@ == old(self).position_history@,
            final(self).move_history@ == old(self).move_history@,
            final(self).history_position_index is None,
            old(self).history_position_index is None ==> *final(self) == *old(self),
            old(self).history_position_index is Some ==> {
                &&& final(self).original_flip_state is None
                &&& final(self).is_flipped == match old(self).original_flip_state {
                    Some(f) => f,
                    None => flip_for_index(
                        old(self).is_flipped,
                        if old(self).position_history@.len() > 0 {
                            old(self).position_history@.len() - 1
                        } else {
                            0
                        },
                        is_solo_mode,
                    ),
                }
            },
    {
        if self.history_position_index.is_some() {
            self.history_position_index = None;
            if let Some(original_flip) = self.original_flip_state {
                self.original_flip_state = None;
                self.is_flipped = original_flip;
            } else {
                let max_index = if self.position_history.len() > 0 {
                    self.position_history.len() - 1
                } else {
                    0
                };
                self.is_flipped = self.get_flip_state_for_index(max_index, is_solo_mode);
            }
        }
    }

    /// Drops everything after position `index`, to start a new line of play
    /// from there: positions after it and moves from it on are removed.
    /// Nothing happens when there is no position `index`.
    pub fn truncate_history_at(&mut self, index: usize)
        ensures
            index >= old(self).position_history@.len() ==> *final(self) == *old(self),
            index < old(self).position_history@.len() ==> {
                &&& final(self).position_history@ == old(self).position_history@.subrange(0, index + 1)
                &&& final(self).move_history@ == (if index < old(self).move_history@.len() {
                    old(self).move_history@.subrange(0, index as int)
                } else {
                    old(self).move_history@
                })
                &&& final(self).history_position_index is None
                &&& final(self).original_flip_state is None
                &&& final(self).is_flipped == old(self).is_flipped
                &&& final(self).taken_pieces@ == old(self).taken_pieces@
                &&& final(self).consecutive_non_pawn_or_capture
                    == old(self).consecutive_non_pawn_or_capture
            },
    {
        if index >= self.position_history.len() {
            return;
        }
        let new_len = index + 1;
        if new_len < self.position_history.len() {
            self.position_history.truncate(new_len);
        }
        if index < self.move_history.len() {
            self.move_history.truncate(index);
        }
        self.history_position_index = None;
        self.original_flip_state = None;
        proof {
            assert(self.position_history@ =~= old(self).position_history@.subrange(0, index + 1));
        }
    }
}

/// The last position after replaying the moves, checked against an
/// expected FEN: when their first four fields differ and the expected FEN is
/// a legal position, that position (in canonical form) replaces it.
pub open spec fn checked_last(last: Seq<char>, expected: Option<Seq<char>>) -> Seq<char> {
    match expected {
        Some(e) => if !same_first_fields(last, e) {
            match fen_normal_form(e) {
                Some(n) => n,
                None => last,
            }
        } else {
            last
        },
        None => last,
    }
}

impl GameBoard {
    /// Rebuilds the record from space-separated UCI moves played from the
    /// starting position: the record is reset (taken pieces stay), text that
    /// is not a UCI move is skipped, the first illegal move ends the replay,
    /// and the pieces standing on each target square are added to the taken
    /// pieces. When an expected FEN is given and the final position does
    /// not match it on the first four fields, the expected position replaces
    /// the final one. Blank move text changes nothing.
    pub fn reconstruct_history(&mut self, moves_str: &str, expected_fen: Option<&str>)
        ensures
            trimmed(moves_str@).len() == 0 ==> *final(self) == *old(self),
            trimmed(moves_str@).len() > 0 ==> ({
                let r = replay(START_FEN@, words(moves_str@));
                let ps = seq![START_FEN@] + r.1;
                &&& final(self).move_history@ == r.0
                &&& final(self).fens() == ps.update(
                    ps.len() - 1,
                    checked_last(
                        ps.last(),
                        match expected_fen {
                            Some(e) => Some(e@),
                            None => None,
                        },
                    ),
                )
                &&& final(self).taken_pieces@ == old(self).taken_pieces@ + r.2
                &&& final(self).consecutive_non_pawn_or_capture == 0
                &&& !final(self).is_flipped
                &&& final(self).history_position_index is None
                &&& final(self).original_flip_state is None
            }),
    {
        let chars = chars_of(moves_str);
        let t = trim_chars(&chars);
        if t.len() == 0 {
            return;
        }
        self.reset();
        proof { assert(self.position_history@.len() == self.fens().len()); }
        let ghost taken0 = self.taken_pieces@;
        let mut current = self.position_history[0].clone();
        let tokens = split_whitespace(&chars);
        let ghost toks = views(tokens@);
        let ghost full = replay(START_FEN@, toks);
        let mut stopped = false;
        let mut i: usize = 0;
        proof {
            assert(self.fens()[0] == self.position_history@[0]@);
            assert(current@ == START_FEN@);
            assert(toks.subrange(0, toks.len() as int) =~= toks);
            assert(self.move_history@ + full.0 =~= full.0);
            assert(self.fens().subrange(1, self.fens().len() as int) + full.1 =~= full.1);
        }
        while i < tokens.len()
            invariant
                toks == views(tokens@),
                toks == words(moves_str@),
                full == replay(START_FEN@, toks),
                i <= tokens@.len(),
                self.position_history@.len() >= 1,
                self.fens()[0] == START_FEN@,
                current@ == self.fens().last(),
                !stopped ==> ({
                    let rest = replay(current@, toks.subrange(i as int, toks.len() as int));
                    &&& self.move_history@ + rest.0 == full.0
                    &&& self.fens().subrange(1, self.fens().len() as int) + rest.1 == full.1
                    &&& self.taken_pieces@ + rest.2 == taken0 + full.2
                }),
                stopped ==> ({
                    &&& self.move_history@ == full.0
                    &&& self.fens().subrange(1, self.fens().len() as int) == full.1
                    &&& self.taken_pieces@ == taken0 + full.2
                }),
                self.consecutive_non_pawn_or_capture == 0,
                !self.is_flipped,
                self.history_position_index is None,
                self.original_flip_state is None,
            decreases tokens@.len() - i,
        {
            if stopped {
                i += 1;
                continue;
            }
            let ghost rest = toks.subrange(i as int, toks.len() as int);
            let ghost rest1 = toks.subrange(i as int + 1, toks.len() as int);
            proof {
                assert(rest[0] == toks[i as int]);
                assert(rest.drop_first() =~= rest1);
            }
            let tok = string_of(&tokens[i]);
            if !uci_parses(tok.as_str()) {
                i += 1;
                continue;
            }
            match uci_to_move(current.as_str(), tok.as_str()) {
                Some(m) => {
                    let ghost before_taken = self.taken_pieces@;
                    if let Some(captured) = piece_at(current.as_str(), m.to()) {
                        self.taken_pieces.push(captured);
                    }
                    match play(current.as_str(), &m) {
                        Some(next) => {
                            let ghost before_moves = self.move_history@;
                            let ghost before_fens = self.fens();
                            self.move_history.push(m);
                            self.position_history.push(next.clone());
                            current = next;
                            proof {
                                assert(self.fens() =~= before_fens.push(current@));
                                assert(self.fens().subrange(1, self.fens().len() as int) =~= before_fens.subrange(1, before_fens.len() as int).push(current@));
                                let r1 = replay(current@, rest1);
                                assert(self.move_history@ + r1.0 =~= before_moves + (seq![m] + r1.0));
                                assert(self.fens().subrange(1, self.fens().len() as int) + r1.1 =~= before_fens.subrange(1, before_fens.len() as int) + (seq![current@] + r1.1));
                                let cap = match piece_on(old_current(before_fens), move_to(m)) { Some(p) => seq![p], None => seq![] };
                                assert(self.taken_pieces@ + r1.2 =~= before_taken + (cap + r1.2));
                            }
                        },
                        None => {
                            stopped = true;
                        },
                    }
                },
                None => {
                    stopped = true;
                    proof {
                        assert(self.move_history@ =~= self.move_history@ + seq![]);
                    }
                },
            }
            i += 1;
        }
        proof {
            if !stopped {
                assert(toks.subrange(i as int, toks.len() as int) =~= seq![]);
            }
        }
        if let Some(fen_str) = expected_fen {
            let last_index = self.position_history.len() - 1;
            let final_fields = split_char(&chars_of(self.position_history[last_index].as_str()), ' ');
            let expected_fields = split_char(&chars_of(fen_str), ' ');
            let mut positions_match = final_fields.len() >= 4 && expected_fields.len() >= 4;
            let mut k: usize = 0;
            while positions_match && k < 4
                invariant
                    positions_match ==> final_fields.len() >= 4 && expected_fields.len() >= 4,
                    k <= 4,
                    forall|j: int| 0 <= j < k ==> views(final_fields@)[j] == views(expected_fields@)[j],
                    !positions_match && final_fields.len() >= 4 && expected_fields.len() >= 4 ==> k < 4
                        && views(final_fields@)[k as int] != views(expected_fields@)[k as int],
                decreases (4 - k) * 2 + if positions_match { 1int } else { 0 },
            {
                if chars_eq(&final_fields[k], &expected_fields[k]) {
                    k += 1;
                } else {
                    positions_match = false;
                }
            }
            proof {
                let a = views(final_fields@);
                let b = views(expected_fields@);
                if positions_match {
                    assert(a.subrange(0, 4) =~= b.subrange(0, 4));
                } else if a.len() >= 4 && b.len() >= 4 {
                    assert(a.subrange(0, 4)[k as int] == a[k as int]);
                    assert(b.subrange(0, 4)[k as int] == b[k as int]);
                }
            }
            if !positions_match {
                if let Some(position) = normalize_fen(fen_str) {
                    let ghost before = self.fens();
                    self.position_history.set(last_index, position);
                    proof { assert(self.fens() =~= before.update(last_index as int, fen_normal_form(fen_str@)->0)); }
                }
            }
        }
    }
}

/// The last entry of a list of positions.
pub open spec fn old_current(ps: Seq<Seq<char>>) -> Seq<char> {
    ps.last()
}

/// Going back one position and then forward one shows the same position
/// again, and neither step changes the record.
pub proof fn lemma_back_then_forward_shows_same(len: int, hpi: Option<usize>)
    requires
        1 < len <= usize::MAX,
        match hpi {
            Some(i) => 0 < i < len,
            None => true,
        },
    ensures
        ({
            let back = match hpi {
                None => Some((len - 2) as usize),
                Some(i) => Some((i - 1) as usize),
            };
            let forward = match back {
                Some(j) => if j < len - 1 { Some((j + 1) as usize) } else { None },
                None => None,
            };
            viewed_index(forward, len) == viewed_index(hpi, len)
        }),
{
}

} // verus!
