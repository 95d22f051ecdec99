//! The chess position model that the game logic works on, and the calls
//! into the `shakmaty` rules engine.
//!
//! A position is held as its FEN text, with the en passant square written
//! only when an en passant capture is legal. Squares are numbered a1 = 0 ...
//! h8 = 63. Everything that needs the rules of chess (legal moves, playing a
//! move, check, notation) is asked of `shakmaty` through the functions at
//! the end of this file; what they return is named by the `uninterp` spec
//! functions, so that the logic built on them can be stated exactly.

use vstd::prelude::*;
use crate::game_logic::opponent::square_name;
use crate::pieces::{PieceColor, PieceType};
use shakmaty::Square;
use shakmaty::fen::Fen;
use shakmaty::{CastlingMode, Chess, EnPassantMode, Position};

verus! {

/// A piece: its color and kind.
#[derive(Clone, Copy, Debug, PartialEq, Eq, Structural, Hash)]
pub struct Piece {
    pub color: PieceColor,
    pub role: PieceType,
}

/// A chess move, by its kind.
#[derive(Clone, Copy, Debug, PartialEq, Eq, Structural, Hash)]
pub enum ChessMove {
    /// A normal move, possibly a capture and possibly a promotion.
    Normal { role: PieceType, from: u8, capture: Option<PieceType>, to: u8, promotion: Option<PieceType> },
    /// An en passant capture.
    EnPassant { from: u8, to: u8 },
    /// Castling, given by the king's and the rook's squares.
    Castle { king: u8, rook: u8 },
    /// A piece drop (variants only).
    Put { role: PieceType, to: u8 },
}

/// The kind of piece that moves.
pub open spec fn move_role(m: ChessMove) -> PieceType {
    match m {
        ChessMove::Normal { role, .. } => role,
        ChessMove::Put { role, .. } => role,
        ChessMove::EnPassant { .. } => PieceType::Pawn,
        ChessMove::Castle { .. } => PieceType::King,
    }
}

/// The square the move starts from; none for drops.
pub open spec fn move_from(m: ChessMove) -> Option<u8> {
    match m {
        ChessMove::Normal { from, .. } => Some(from),
        ChessMove::EnPassant { from, .. } => Some(from),
        ChessMove::Castle { king, .. } => Some(king),
        ChessMove::Put { .. } => None,
    }
}

/// The target square; for castling, the rook's square.
pub open spec fn move_to(m: ChessMove) -> u8 {
    match m {
        ChessMove::Normal { to, .. } => to,
        ChessMove::EnPassant { to, .. } => to,
        ChessMove::Put { to, .. } => to,
        ChessMove::Castle { rook, .. } => rook,
    }
}

/// The kind of piece captured, if any.
pub open spec fn move_capture(m: ChessMove) -> Option<PieceType> {
    match m {
        ChessMove::Normal { capture, .. } => capture,
        ChessMove::EnPassant { .. } => Some(PieceType::Pawn),
        _ => None,
    }
}

/// The kind of piece promoted to, if any.
pub open spec fn move_promotion(m: ChessMove) -> Option<PieceType> {
    match m {
        ChessMove::Normal { promotion, .. } => promotion,
        _ => None,
    }
}

/// All squares the move mentions are on the board.
pub open spec fn move_ok(m: ChessMove) -> bool {
    match m {
        ChessMove::Normal { from, to, .. } => from < 64 && to < 64,
        ChessMove::EnPassant { from, to } => from < 64 && to < 64,
        ChessMove::Castle { king, rook } => king < 64 && rook < 64,
        ChessMove::Put { to, .. } => to < 64,
    }
}

/// The rank (0 = first, 7 = eighth) of a square.
pub open spec fn rank_of(sq: int) -> int {
    sq / 8
}

/// The file (0 = a, 7 = h) of a square.
pub open spec fn file_of(sq: int) -> int {
    sq % 8
}

impl ChessMove {
    /// The kind of piece that moves.
    pub fn role(&self) -> (r: PieceType)
        ensures
            r == move_role(*self),
    {
        match *self {
            ChessMove::Normal { role, .. } => role,
            ChessMove::Put { role, .. } => role,
            ChessMove::EnPassant { .. } => PieceType::Pawn,
            ChessMove::Castle { .. } => PieceType::King,
        }
    }

    /// The square the move starts from; none for drops.
    pub fn from(&self) -> (r: Option<u8>)
        ensures
            r == move_from(*self),
    {
        match *self {
            ChessMove::Normal { from, .. } => Some(from),
            ChessMove::EnPassant { from, .. } => Some(from),
            ChessMove::Castle { king, .. } => Some(king),
            ChessMove::Put { .. } => None,
        }
    }

    /// The target square; for castling, the rook's square.
    pub fn to(&self) -> (r: u8)
        ensures
            r == move_to(*self),
    {
        match *self {
            ChessMove::Normal { to, .. } => to,
            ChessMove::EnPassant { to, .. } => to,
            ChessMove::Put { to, .. } => to,
            ChessMove::Castle { rook, .. } => rook,
        }
    }

    /// The kind of piece captured, if any.
    pub fn capture(&self) -> (r: Option<PieceType>)
        ensures
            r == move_capture(*self),
    {
        match *self {
            ChessMove::Normal { capture, .. } => capture,
            ChessMove::EnPassant { .. } => Some(PieceType::Pawn),
            _ => None,
        }
    }

    /// The kind of piece promoted to, if any.
    pub fn promotion(&self) -> (r: Option<PieceType>)
        ensures
            r == move_promotion(*self),
    {
        match *self {
            ChessMove::Normal { promotion, .. } => promotion,
            _ => None,
        }
    }

    /// Whether this is castling.
    pub fn is_castle(&self) -> (r: bool)
        ensures
            r == (*self is Castle),
    {
        match *self {
            ChessMove::Castle { .. } => true,
            _ => false,
        }
    }
}

/// The FEN of the starting position.
pub const START_FEN: &'static str = "rnbqkbnr/pppppppp/8/8/8/8/PPPPPPPP/RNBQKBNR w KQkq - 0 1";

/// Whether `fen` is the FEN of a legal standard chess position: whether
/// `chess_of` reads it.
pub uninterp spec fn fen_valid(fen: Seq<char>) -> bool;

/// The legal moves in the position `fen`, in the engine's order.
pub uninterp spec fn legal_moves_in(fen: Seq<char>) -> Seq<ChessMove>;

/// The FEN of the position after playing `m` in `fen`; none when `m` is not
/// legal there.
pub uninterp spec fn position_after(fen: Seq<char>, m: ChessMove) -> Option<Seq<char>>;

/// The piece on square `sq` of the position `fen`.
pub uninterp spec fn piece_on(fen: Seq<char>, sq: u8) -> Option<Piece>;

/// Whether the side to move in `fen` is in check.
pub uninterp spec fn in_check(fen: Seq<char>) -> bool;

/// Whether neither side has enough material left to mate.
pub uninterp spec fn insufficient_material(fen: Seq<char>) -> bool;

/// The side to move in `fen`.
pub uninterp spec fn side_to_move(fen: Seq<char>) -> PieceColor;

/// The square of the king of `color` in `fen`, when there is exactly one.
pub uninterp spec fn king_square(fen: Seq<char>, color: PieceColor) -> Option<u8>;

/// Whether two positions count as the same for repetition: same pieces,
/// side to move, castling rights and legal en passant square.
pub uninterp spec fn same_position(a: Seq<char>, b: Seq<char>) -> bool;

/// The Standard Algebraic Notation of move `m` in position `fen`.
pub uninterp spec fn san_text(fen: Seq<char>, m: ChessMove) -> Seq<char>;

/// The legal move that the UCI text `uci` denotes in `fen`, if any.
pub uninterp spec fn uci_move_in(fen: Seq<char>, uci: Seq<char>) -> Option<ChessMove>;

/// The legal move that the SAN text `san` denotes in `fen`, if any.
pub uninterp spec fn san_move_in(fen: Seq<char>, san: Seq<char>) -> Option<ChessMove>;

/// `shakmaty::Chess`, a position of standard chess.
#[verifier::external_type_specification]
#[verifier::external_body]
pub struct ExChess(Chess);

/// `shakmaty::Move`.
#[verifier::external_type_specification]
#[verifier::external_body]
pub struct ExMove(shakmaty::Move);

/// `shakmaty::Role`.
#[verifier::external_type_specification]
#[verifier::external_body]
pub struct ExRole(shakmaty::Role);

/// Reads a FEN into a `shakmaty::Chess` (`Fen::from_ascii`, then
/// `Fen::into_position` in standard castling mode); none when either fails.
/// `fen_valid` names when it succeeds.
#[verifier::external_body]
fn chess_of(fen: &str) -> (r: Option<Chess>)
    ensures
        r is Some <==> fen_valid(fen@),
{
    match Fen::from_ascii(fen.as_bytes()) {
        Ok(f) => f.into_position::<Chess>(CastlingMode::Standard).ok(),
        Err(_) => None,
    }
}

/// Writes a position as FEN (`Fen::from_position` with the legal en passant
/// mode, then `Display`).
#[verifier::external_body]
fn fen_of(pos: Chess) -> String {
    Fen::from_position(pos, EnPassantMode::Legal).to_string()
}

/// Converts a `shakmaty::Role` into the library's role, kind for kind.
#[verifier::external_body]
fn role_in(r: shakmaty::Role) -> PieceType {
    match r {
        shakmaty::Role::Pawn => PieceType::Pawn,
        shakmaty::Role::Knight => PieceType::Knight,
        shakmaty::Role::Bishop => PieceType::Bishop,
        shakmaty::Role::Rook => PieceType::Rook,
        shakmaty::Role::Queen => PieceType::Queen,
        shakmaty::Role::King => PieceType::King,
    }
}

/// Converts a role into `shakmaty::Role`, kind for kind.
#[verifier::external_body]
fn role_out(r: PieceType) -> shakmaty::Role {
    match r {
        PieceType::Pawn => shakmaty::Role::Pawn,
        PieceType::Knight => shakmaty::Role::Knight,
        PieceType::Bishop => shakmaty::Role::Bishop,
        PieceType::Rook => shakmaty::Role::Rook,
        PieceType::Queen => shakmaty::Role::Queen,
        PieceType::King => shakmaty::Role::King,
    }
}

/// Converts a `shakmaty::Move` into the library's move, variant for
/// variant, squares by their index (always below 64).
#[verifier::external_body]
fn move_in(m: &shakmaty::Move) -> (r: ChessMove)
    ensures
        move_ok(r),
{
    match *m {
        shakmaty::Move::Normal { role, from, capture, to, promotion } => ChessMove::Normal {
            role: role_in(role), from: from as u8, capture: capture.map(role_in), to: to as u8,
            promotion: promotion.map(role_in),
        },
        shakmaty::Move::EnPassant { from, to } => ChessMove::EnPassant { from: from as u8, to: to as u8 },
        shakmaty::Move::Castle { king, rook } => ChessMove::Castle { king: king as u8, rook: rook as u8 },
        shakmaty::Move::Put { role, to } => ChessMove::Put { role: role_in(role), to: to as u8 },
    }
}

/// Converts a move into `shakmaty::Move`, variant for variant
/// (`Square::new` panics on an index of 64 or more, hence the requirement).
#[verifier::external_body]
fn move_out(m: &ChessMove) -> shakmaty::Move
    requires
        move_ok(*m),
{
    match *m {
        ChessMove::Normal { role, from, capture, to, promotion } => shakmaty::Move::Normal {
            role: role_out(role), from: Square::new(from as u32), capture: capture.map(role_out),
            to: Square::new(to as u32), promotion: promotion.map(role_out),
        },
        ChessMove::EnPassant { from, to } => shakmaty::Move::EnPassant { from: Square::new(from as u32), to: Square::new(to as u32) },
        ChessMove::Castle { king, rook } => shakmaty::Move::Castle { king: Square::new(king as u32), rook: Square::new(rook as u32) },
        ChessMove::Put { role, to } => shakmaty::Move::Put { role: role_out(role), to: Square::new(to as u32) },
    }
}

/// `Position::legal_moves` of the position `fen` (none when the FEN is
/// not a legal position).
#[verifier::external_body]
pub fn legal_moves(fen: &str) -> (r: Vec<ChessMove>)
    ensures
        r@ == legal_moves_in(fen@),
        !fen_valid(fen@) ==> r@.len() == 0,
        forall|i: int| 0 <= i < r@.len() ==> move_ok(#[trigger] r@[i]),
{
    match chess_of(fen) {
        Some(pos) => pos.legal_moves().iter().map(move_in).collect(),
        None => Vec::new(),
    }
}

/// `Position::play`: the FEN after `m`; none when `m` is not legal in
/// `fen` (or the FEN is not a legal position). After a move the other side
/// is to move.
#[verifier::external_body]
pub fn play(fen: &str, m: &ChessMove) -> (r: Option<String>)
    requires
        move_ok(*m),
    ensures
        match r {
            Some(s) => position_after(fen@, *m) == Some(s@),
            None => position_after(fen@, *m) is None,
        },
        r is Some <==> (fen_valid(fen@) && legal_moves_in(fen@).contains(*m)),
        r matches Some(s) ==> fen_valid(s@),
        r matches Some(s) ==> side_to_move(s@) != side_to_move(fen@),
{
    match chess_of(fen) {
        Some(pos) => match pos.play(&move_out(m)) {
            Ok(next) => Some(fen_of(next)),
            Err(_) => None,
        },
        None => None,
    }
}

/// `Board::piece_at` on square `sq` of `fen` (`Square::new` needs an index
/// below 64).
#[verifier::external_body]
pub fn piece_at(fen: &str, sq: u8) -> (r: Option<Piece>)
    requires
        sq < 64,
    ensures
        r == piece_on(fen@, sq),
{
    match chess_of(fen) {
        Some(pos) => match pos.board().piece_at(Square::new(sq as u32)) {
            Some(p) => Some(Piece {
                color: if p.color == shakmaty::Color::White { PieceColor::White } else { PieceColor::Black },
                role: role_in(p.role),
            }),
            None => None,
        },
        None => None,
    }
}

/// `Position::is_check` of `fen`.
#[verifier::external_body]
pub fn is_check(fen: &str) -> (r: bool)
    ensures
        r == in_check(fen@),
        r ==> fen_valid(fen@),
{
    match chess_of(fen) {
        Some(pos) => pos.is_check(),
        None => false,
    }
}

/// `Position::is_checkmate`: in check with no legal move.
#[verifier::external_body]
pub fn is_checkmate(fen: &str) -> (r: bool)
    ensures
        r == (in_check(fen@) && legal_moves_in(fen@).len() == 0),
{
    match chess_of(fen) {
        Some(pos) => pos.is_checkmate(),
        None => false,
    }
}

/// `Position::is_stalemate`: not in check with no legal move.
#[verifier::external_body]
pub fn is_stalemate(fen: &str) -> (r: bool)
    ensures
        r == (fen_valid(fen@) && !in_check(fen@) && legal_moves_in(fen@).len() == 0),
{
    match chess_of(fen) {
        Some(pos) => pos.is_stalemate(),
        None => false,
    }
}

/// `Position::is_insufficient_material` of `fen`.
#[verifier::external_body]
pub fn is_insufficient_material(fen: &str) -> (r: bool)
    ensures
        r == insufficient_material(fen@),
{
    match chess_of(fen) {
        Some(pos) => pos.is_insufficient_material(),
        None => false,
    }
}

/// `Position::turn` of `fen` (White when the FEN is not a position).
#[verifier::external_body]
pub fn turn(fen: &str) -> (r: PieceColor)
    ensures
        r == side_to_move(fen@),
{
    match chess_of(fen) {
        Some(pos) if pos.turn() == shakmaty::Color::Black => PieceColor::Black,
        _ => PieceColor::White,
    }
}

/// `Board::king_of`: the square of the one king of `color`, if there is
/// exactly one.
#[verifier::external_body]
pub fn king_of(fen: &str, color: PieceColor) -> (r: Option<u8>)
    ensures
        r == king_square(fen@, color),
        r matches Some(sq) ==> sq < 64,
{
    let c = match color {
        PieceColor::White => shakmaty::Color::White,
        PieceColor::Black => shakmaty::Color::Black,
    };
    match chess_of(fen) {
        Some(pos) => pos.board().king_of(c).map(|sq| sq as u8),
        None => None,
    }
}

/// `PartialEq for Chess`: whether two positions are the same for
/// repetition (false when either FEN is not a position).
#[verifier::external_body]
pub fn positions_equal(a: &str, b: &str) -> (r: bool)
    ensures
        r == same_position(a@, b@),
{
    match (chess_of(a), chess_of(b)) {
        (Some(x), Some(y)) => x == y,
        _ => false,
    }
}

/// `San::from_move`, written out: the SAN of `m` in `fen` (empty when the
/// FEN is not a position).
#[verifier::external_body]
pub fn san_of(fen: &str, m: &ChessMove) -> (r: String)
    requires
        move_ok(*m),
    ensures
        r@ == san_text(fen@, *m),
{
    match chess_of(fen) {
        Some(pos) => shakmaty::san::San::from_move(&pos, &move_out(m)).to_string(),
        None => String::new(),
    }
}

/// `UciMove::from_ascii` then `UciMove::to_move`: the legal move the UCI
/// text denotes in `fen`, if any.
#[verifier::external_body]
pub fn uci_to_move(fen: &str, uci: &str) -> (r: Option<ChessMove>)
    ensures
        r == uci_move_in(fen@, uci@),
        r matches Some(m) ==> fen_valid(fen@) && legal_moves_in(fen@).contains(m) && move_ok(m),
{
    match (chess_of(fen), shakmaty::uci::UciMove::from_ascii(uci.as_bytes())) {
        (Some(pos), Ok(u)) => u.to_move(&pos).ok().map(|m| move_in(&m)),
        _ => None,
    }
}

/// `San::from_ascii` then `San::to_move`: the legal move the SAN text
/// denotes in `fen`, if any.
#[verifier::external_body]
pub fn san_to_move(fen: &str, san: &str) -> (r: Option<ChessMove>)
    ensures
        r == san_move_in(fen@, san@),
        r matches Some(m) ==> fen_valid(fen@) && legal_moves_in(fen@).contains(m) && move_ok(m),
{
    match (chess_of(fen), shakmaty::san::San::from_ascii(san.as_bytes())) {
        (Some(pos), Ok(s)) => s.to_move(&pos).ok().map(|m| move_in(&m)),
        _ => None,
    }
}

/// The FEN of `Chess::default()`, the starting position, which is in
/// canonical form, White to move.
#[verifier::external_body]
pub fn initial_position() -> (r: String)
    ensures
        r@ == START_FEN@,
        fen_valid(r@),
        fen_normal_form(r@) == Some(r@),
        side_to_move(r@) == PieceColor::White,
{
    fen_of(Chess::default())
}

/// The square named by a file letter and a rank digit ("e" and "4"), as
/// its index; none unless the file is `a`..`h` and the rank `1`..`8`.
pub open spec fn square_named(file: char, rank: char) -> Option<u8> {
    if 'a' <= file <= 'h' && '1' <= rank <= '8' {
        Some(((rank as int - '1' as int) * 8 + (file as int - 'a' as int)) as u8)
    } else {
        None
    }
}

/// `Square::from_ascii` on the text made of `file` then `rank`: a square
/// exactly when the text is two bytes, a file letter `a`..`h` then a rank
/// digit `1`..`8` (a character of more than one byte makes the text longer,
/// and it is refused).
#[verifier::external_body]
pub fn square_from_chars(file: char, rank: char) -> (r: Option<u8>)
    ensures
        r == square_named(file, rank),
{
    match Square::from_ascii(format!("{}{}", file, rank).as_bytes()) {
        Ok(sq) => Some(sq as u8),
        Err(_) => None,
    }
}

/// What reading SAN text in a position gives: the move, or why there is
/// none.
#[derive(Clone, Copy, Debug, PartialEq, Eq, Structural)]
pub enum SanOutcome {
    /// The legal move the text denotes.
    Found(ChessMove),
    /// The text is not SAN ("invalid san").
    Invalid,
    /// No legal move matches ("illegal san").
    Illegal,
    /// Several legal moves match ("ambiguous san").
    Ambiguous,
}

/// What `San::from_str` then `San::to_move` give for the text `san` in the
/// position `fen`.
pub uninterp spec fn san_outcome(fen: Seq<char>, san: Seq<char>) -> SanOutcome;

/// `San::from_str` on `san`, then `San::to_move` in the position `fen`
/// (a legal one): the move, or which of the two failed and how
/// (`ParseSanError`; `SanError::IllegalSan` or `AmbiguousSan`). A move
/// found is legal there.
#[verifier::external_body]
pub fn san_resolve(fen: &str, san: &str) -> (r: SanOutcome)
    requires
        fen_valid(fen@),
    ensures
        r == san_outcome(fen@, san@),
        r matches SanOutcome::Found(m) ==> legal_moves_in(fen@).contains(m) && move_ok(m),
{
    let pos = match chess_of(fen) {
        Some(p) => p,
        None => return SanOutcome::Invalid,
    };
    match san.parse::<shakmaty::san::San>() {
        Err(_) => SanOutcome::Invalid,
        Ok(s) => match s.to_move(&pos) {
            Ok(m) => SanOutcome::Found(move_in(&m)),
            Err(shakmaty::san::SanError::IllegalSan) => SanOutcome::Illegal,
            Err(shakmaty::san::SanError::AmbiguousSan) => SanOutcome::Ambiguous,
        },
    }
}

/// The letter of a piece kind in move text: p, n, b, r, q, k.
pub open spec fn role_char(r: PieceType) -> char {
    match r {
        PieceType::Pawn => 'p',
        PieceType::Knight => 'n',
        PieceType::Bishop => 'b',
        PieceType::Rook => 'r',
        PieceType::Queen => 'q',
        PieceType::King => 'k',
    }
}

/// The capital letter of a piece kind: P, N, B, R, Q, K.
pub open spec fn role_upper_char(r: PieceType) -> char {
    match r {
        PieceType::Pawn => 'P',
        PieceType::Knight => 'N',
        PieceType::Bishop => 'B',
        PieceType::Rook => 'R',
        PieceType::Queen => 'Q',
        PieceType::King => 'K',
    }
}

/// Where a king on `king` lands when it castles with the rook on `rook`:
/// the g-file when the rook stands on a higher square, else the c-file,
/// on the king's rank.
pub open spec fn castled_king(king: u8, rook: u8) -> u8 {
    ((king / 8) * 8 + if king < rook { 6int } else { 2int }) as u8
}

/// The UCI text of a move with castling written as the king's move to its
/// castling square: origin, target and promotion letter; a drop as the
/// capital letter of the piece, `@` and the square.
pub open spec fn uci_standard(m: ChessMove) -> Seq<char> {
    match m {
        ChessMove::Normal { from, to, promotion, .. } => square_name(from) + square_name(to) + match promotion {
            Some(p) => seq![role_char(p)],
            None => Seq::empty(),
        },
        ChessMove::EnPassant { from, to } => square_name(from) + square_name(to),
        ChessMove::Castle { king, rook } => square_name(king) + square_name(castled_king(king, rook)),
        ChessMove::Put { role, to } => seq![role_upper_char(role), '@'] + square_name(to),
    }
}

/// `UciMove::from_standard` written out with `Display`: the UCI text of a
/// move, castling as the king's move to its castling square
/// (`uci_standard`).
#[verifier::external_body]
pub fn uci_of_move(m: &ChessMove) -> (r: String)
    requires
        move_ok(*m),
    ensures
        r@ == uci_standard(*m),
{
    shakmaty::uci::UciMove::from_standard(&move_out(m)).to_string()
}

/// Whether `uci` is well-formed UCI move text.
pub uninterp spec fn uci_syntax_ok(uci: Seq<char>) -> bool;

/// The canonical FEN of the position that `fen` describes, if it is one.
pub uninterp spec fn fen_normal_form(fen: Seq<char>) -> Option<Seq<char>>;

/// `UciMove::from_ascii`: whether the text is a well-formed UCI move.
#[verifier::external_body]
pub fn uci_parses(uci: &str) -> (r: bool)
    ensures
        r == uci_syntax_ok(uci@),
{
    shakmaty::uci::UciMove::from_ascii(uci.as_bytes()).is_ok()
}

/// Reads a FEN and writes it back in canonical form (legal en passant
/// squares only); none when it is not a legal position. It gives a FEN
/// exactly when `chess_of` reads the text, and what it writes reads back
/// to the same position, so it is already in canonical form.
#[verifier::external_body]
pub fn normalize_fen(fen: &str) -> (r: Option<String>)
    ensures
        match r {
            Some(s) => fen_normal_form(fen@) == Some(s@),
            None => fen_normal_form(fen@) is None,
        },
        r is Some <==> fen_valid(fen@),
        r matches Some(s) ==> fen_valid(s@) && fen_normal_form(s@) == Some(s@),
{
    match chess_of(fen) {
        Some(pos) => Some(fen_of(pos)),
        None => None,
    }
}

} // verus!
