//! The other player in a networked game: who they are, whose move it is,
//! and the wording of the messages exchanged with them.
//!
//! The connections themselves (a TCP stream, or the channels to the Lichess
//! threads) are held by the application next to this state.

use vstd::prelude::*;
use crate::chess::{ChessMove, move_from, move_to};
use crate::pieces::{PieceColor, PieceType};
use crate::text::{chars_of, concat_chars, string_of, trimmed, trim_chars};

verus! {

/// How the opponent is reached.
#[derive(Debug, Clone)]
pub enum OpponentKind {
    /// A peer over TCP.
    Tcp,
    /// A Lichess game.
    Lichess {
        game_id: String,
    },
}

/// The other player of a networked game.
#[derive(Debug)]
pub struct Opponent {
    /// How the opponent is reached, if connected.
    pub kind: Option<OpponentKind>,
    /// Whether an opponent move is to follow.
    pub opponent_will_move: bool,
    /// The opponent's color.
    pub color: PieceColor,
    /// Whether the game has started.
    pub game_started: bool,
    /// Moves already played when joining an ongoing game.
    pub initial_move_count: usize,
    /// Moves received from the stream so far.
    pub moves_received: usize,
}

impl Default for Opponent {
    /// Not connected, Black, not started, nothing received.
    fn default() -> (r: Opponent)
        ensures
            r.kind is None,
            !r.opponent_will_move,
            r.color == PieceColor::Black,
            !r.game_started,
            r.initial_move_count == 0,
            r.moves_received == 0,
    {
        Opponent {
            kind: None,
            opponent_will_move: false,
            color: PieceColor::Black,
            game_started: false,
            initial_move_count: 0,
            moves_received: 0,
        }
    }
}

/// The name of square `sq`, file letter then rank digit ("e4").
pub open spec fn square_name(sq: u8) -> Seq<char> {
    seq![(97 + sq % 8) as char, (49 + sq / 8) as char]
}

/// The letter that stands for a promotion in move text.
pub open spec fn promotion_letter(p: Option<PieceType>) -> Seq<char> {
    match p {
        Some(PieceType::Queen) => "q"@,
        Some(PieceType::Rook) => "r"@,
        Some(PieceType::Bishop) => "b"@,
        Some(PieceType::Knight) => "n"@,
        _ => Seq::empty(),
    }
}

/// The text sent for a move: origin square, target square, promotion
/// letter. A move with no origin square has an empty origin.
pub open spec fn move_text(m: ChessMove, promotion: Option<PieceType>) -> Seq<char> {
    let from = match move_from(m) {
        Some(sq) => square_name(sq),
        None => Seq::empty(),
    };
    from + square_name(move_to(m)) + promotion_letter(promotion)
}

/// The name of a square.
pub fn square_to_string(sq: u8) -> (r: Vec<char>)
    requires
        sq < 64,
    ensures
        r@ == square_name(sq),
{
    let mut r: Vec<char> = Vec::new();
    let file = (97u8 + sq % 8) as char;
    let rank = (49u8 + sq / 8) as char;
    r.push(file);
    r.push(rank);
    proof { assert(r@ =~= square_name(sq)); }
    r
}

/// A copy of an opponent (`b` of `a`): the same state; a TCP connection is
/// shared, a Lichess game's channels are not, so that copy has none.
pub open spec fn opponent_copied(a: Opponent, b: Opponent) -> bool {
    &&& b.kind == (match a.kind {
        Some(OpponentKind::Tcp) => Some(OpponentKind::Tcp),
        _ => None,
    })
    &&& b.opponent_will_move == a.opponent_will_move
    &&& b.color == a.color
    &&& b.game_started == a.game_started
    &&& b.initial_move_count == a.initial_move_count
    &&& b.moves_received == a.moves_received
}

impl Clone for Opponent {
    /// See `opponent_copied`.
    fn clone(&self) -> (r: Opponent)
        ensures
            opponent_copied(*self, r),
    {
        let kind = match &self.kind {
            Some(OpponentKind::Tcp) => Some(OpponentKind::Tcp),
            _ => None,
        };
        Opponent {
            kind,
            opponent_will_move: self.opponent_will_move,
            color: self.color,
            game_started: self.game_started,
            initial_move_count: self.initial_move_count,
            moves_received: self.moves_received,
        }
    }
}

impl Opponent {
    /// A copy of the state without the connection.
    pub fn copy(&self) -> (r: Opponent)
        ensures
            r.kind is None,
            r.opponent_will_move == self.opponent_will_move,
            r.color == self.color,
            r.game_started == self.game_started,
            r.initial_move_count == self.initial_move_count,
            r.moves_received == self.moves_received,
    {
        Opponent {
            kind: None,
            opponent_will_move: self.opponent_will_move,
            color: self.color,
            game_started: self.game_started,
            initial_move_count: self.initial_move_count,
            moves_received: self.moves_received,
        }
    }

    /// Whether the opponent is a TCP peer.
    pub fn is_tcp_multiplayer(&self) -> (r: bool)
        ensures
            r == (self.kind matches Some(OpponentKind::Tcp)),
    {
        match self.kind {
            Some(OpponentKind::Tcp) => true,
            _ => false,
        }
    }

    /// Whether the opponent is on Lichess.
    pub fn is_lichess(&self) -> (r: bool)
        ensures
            r == (self.kind matches Some(OpponentKind::Lichess { .. })),
    {
        match self.kind {
            Some(OpponentKind::Lichess { .. }) => true,
            _ => false,
        }
    }

    /// A TCP peer playing `color`; White moves first, so a White opponent
    /// is about to move.
    pub fn new_tcp(color: PieceColor) -> (r: Opponent)
        ensures
            r.kind matches Some(OpponentKind::Tcp),
            r.opponent_will_move == (color == PieceColor::White),
            r.color == color,
            !r.game_started,
            r.initial_move_count == 0,
            r.moves_received == 0,
    {
        let opponent_will_move = match color {
            PieceColor::White => true,
            PieceColor::Black => false,
        };
        Opponent {
            kind: Some(OpponentKind::Tcp),
            opponent_will_move,
            color,
            game_started: false,
            initial_move_count: 0,
            moves_received: 0,
        }
    }

    /// A Lichess opponent playing `color` in game `game_id`; the game is
    /// under way at once.
    pub fn new_lichess(game_id: String, color: PieceColor, initial_move_count: usize) -> (r: Opponent)
        ensures
            r.kind matches Some(OpponentKind::Lichess { game_id: g }) && g@ == game_id@,
            r.opponent_will_move == (color == PieceColor::White),
            r.color == color,
            r.game_started,
            r.initial_move_count == initial_move_count,
            r.moves_received == 0,
    {
        let opponent_will_move = color == PieceColor::White;
        Opponent {
            kind: Some(OpponentKind::Lichess { game_id }),
            opponent_will_move,
            color,
            game_started: true,
            initial_move_count,
            moves_received: 0,
        }
    }

    /// The name of a square, or empty text for none.
    pub fn convert_position_to_string(&self, position: Option<u8>) -> (r: String)
        requires
            position matches Some(sq) ==> sq < 64,
        ensures
            r@ == match position {
                Some(sq) => square_name(sq),
                None => Seq::empty(),
            },
    {
        match position {
            Some(sq) => string_of(&square_to_string(sq)),
            None => String::new(),
        }
    }

    /// The text to send for a move, e.g. "e2e4" or "e7e8q".
    pub fn move_message(&self, move_to_send: &ChessMove, promotion_type: Option<PieceType>) -> (r: String)
        requires
            move_from(*move_to_send) matches Some(sq) ==> sq < 64,
            move_to(*move_to_send) < 64,
        ensures
            r@ == move_text(*move_to_send, promotion_type),
    {
        let from = match move_to_send.from() {
            Some(sq) => square_to_string(sq),
            None => Vec::new(),
        };
        let to = square_to_string(move_to_send.to());
        let letter = match promotion_type {
            Some(PieceType::Queen) => chars_of("q"),
            Some(PieceType::Rook) => chars_of("r"),
            Some(PieceType::Bishop) => chars_of("b"),
            Some(PieceType::Knight) => chars_of("n"),
            _ => Vec::new(),
        };
        string_of(&concat_chars(&concat_chars(&from, &to), &letter))
    }
}

/// What a read from the peer means: nothing read is no move yet (empty
/// text); "ended", or only whitespace, means the peer ended the game;
/// anything else is the peer's message.
pub fn interpret_peer_message(text: Option<&str>) -> (r: Result<String, String>)
    ensures
        match text {
            None => r matches Ok(s) && s@.len() == 0,
            Some(t) => if trimmed(t@) == "ended"@ || trimmed(t@).len() == 0 {
                r matches Err(e) && e@ == "Game ended by the other opponent"@
            } else {
                r matches Ok(s) && s@ == t@
            },
        },
{
    match text {
        None => Ok(String::new()),
        Some(t) => {
            let trimmed_text = trim_chars(&chars_of(t));
            let ended = chars_of("ended");
            if crate::text::chars_eq(&trimmed_text, &ended) || trimmed_text.len() == 0 {
                Err(String::from_str("Game ended by the other opponent"))
            } else {
                Ok(String::from_str(t))
            }
        },
    }
}

/// The color the host announces: "w" or "b".
pub fn color_from_message(text: &str) -> (r: Result<PieceColor, String>)
    ensures
        text@ == "w"@ ==> r == Ok::<PieceColor, String>(PieceColor::White),
        text@ == "b"@ ==> r == Ok::<PieceColor, String>(PieceColor::Black),
        text@ != "w"@ && text@ != "b"@ ==> (r matches Err(e) && e@ == "Failed to get color from stream"@),
{
    proof {
        reveal_strlit("w");
        reveal_strlit("b");
        assert("w"@[0] != "b"@[0]);
        assert("w"@ != "b"@);
    }
    let t = chars_of(text);
    if crate::text::chars_eq(&t, &chars_of("w")) {
        Ok(PieceColor::White)
    } else if crate::text::chars_eq(&t, &chars_of("b")) {
        Ok(PieceColor::Black)
    } else {
        Err(String::from_str("Failed to get color from stream"))
    }
}

/// Whether the host's message is the start signal "s": nothing read yet is
/// not yet; any other message is an error.
pub fn start_signal(text: Option<&str>) -> (r: Result<bool, String>)
    ensures
        match text {
            None => r == Ok::<bool, String>(false),
            Some(t) => if t@ == "s"@ {
                r == Ok::<bool, String>(true)
            } else {
                r matches Err(e) && e@ == "Failed to get start signal from stream"@
            },
        },
{
    match text {
        None => Ok(false),
        Some(t) => {
            if crate::text::chars_eq(&chars_of(t), &chars_of("s")) {
                Ok(true)
            } else {
                Err(String::from_str("Failed to get start signal from stream"))
            }
        },
    }
}

} // verus!
