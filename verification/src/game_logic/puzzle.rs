//! Playing a Lichess puzzle: checking the player's moves against the
//! solution, answering with the opponent's moves, and setting up the
//! puzzle's position from its game.
//!
//! Fetching puzzles and submitting results go over the network and are the
//! application's part; this module says when a result is to be submitted and
//! what.

use vstd::prelude::*;
use std::sync::mpsc::Receiver;
use std::time::Instant;
use crate::board::{Coord, on_board};
use crate::channel::try_receive;
use crate::chess::{
    ChessMove, START_FEN, initial_position, play, position_after, san_move_in, san_to_move,
    square_from_chars, square_named,
};
use crate::game_logic::game::{
    Game, GameLogic, GameState, cell_selected, char_or, game_ready, promotion_named, shown_coord,
    synced_turn,
};
use crate::game_logic::game_board::{GameBoard, lemma_fens_len};
use crate::text::{
    char_width, chars_eq, chars_of, ends_with, has_suffix, has_utf8_len_at_least, slice_chars,
    split_whitespace, string_of, utf8_len, views, words,
};
use crate::time::{elapsed_nanos, instant_now};

verus! {

/// The puzzle itself, as Lichess describes it.
#[derive(Debug, Clone)]
pub struct PuzzleInfo {
    /// The puzzle's id.
    pub id: String,
    /// The puzzle's rating.
    pub rating: u32,
    /// The moves of the solution in UCI, the player's and the opponent's in
    /// turn.
    pub solution: Vec<String>,
    /// The puzzle's themes.
    pub themes: Vec<String>,
}

/// The game a puzzle comes from.
#[derive(Debug, Clone)]
pub struct PuzzleSourceGame {
    /// The game's moves up to the puzzle, in PGN.
    pub pgn: String,
}

/// A Lichess puzzle: the game it comes from and the puzzle.
#[derive(Debug, Clone)]
pub struct Puzzle {
    pub game: PuzzleSourceGame,
    pub puzzle: PuzzleInfo,
}

/// A finished puzzle to report to Lichess.
#[derive(Debug)]
pub struct PuzzleSubmission {
    /// The account token to submit with.
    pub token: String,
    /// The puzzle's id.
    pub puzzle_id: String,
    /// Whether it was solved without a mistake.
    pub win: bool,
    /// The time taken, in milliseconds.
    pub time_ms: u32,
    /// The player's puzzle rating before, to work out the change.
    pub rating_before: Option<u32>,
}

/// What the player's move in a puzzle came to.
#[derive(Debug)]
pub struct MoveVerdict {
    /// Whether the move was the expected one (or the puzzle was over).
    pub correct: bool,
    /// The message to show, if any.
    pub message: Option<String>,
    /// The result to submit, if it is to be submitted now.
    pub submission: Option<PuzzleSubmission>,
}

/// A puzzle being played.
#[derive(Debug)]
pub struct PuzzleGame {
    /// The puzzle.
    pub puzzle: Puzzle,
    /// How many moves of the solution have been played.
    pub solution_index: usize,
    /// The opponent's answer waiting to be played, and how far it advances
    /// the solution.
    pub opponent_move_pending: Option<(String, usize)>,
    /// When the opponent's answer was scheduled.
    pub opponent_move_time: Option<Instant>,
    /// When the puzzle started.
    pub start_time: Option<Instant>,
    /// Whether the player made a wrong move.
    pub has_mistakes: bool,
    /// Whether the result was submitted.
    pub submitted: bool,
    /// The player's puzzle rating before the puzzle.
    pub rating_before: Option<u32>,
    /// The change of the player's rating, once known.
    pub elo_change: Option<i32>,
    /// Where the change of rating will arrive.
    pub elo_change_receiver: Option<Receiver<i32>>,
}

/// Whether byte `k` of the UTF-8 text `s` starts a character (or ends the
/// text).
pub open spec fn byte_boundary(s: Seq<char>, k: int) -> bool
    decreases s.len(),
{
    if k == 0 {
        true
    } else if s.len() == 0 || k < char_width(s[0]) {
        false
    } else {
        byte_boundary(s.drop_first(), k - char_width(s[0]))
    }
}

/// Whether the UCI text `s` can be cut after its second and fourth bytes,
/// as reading its squares does; a text shorter than four bytes is never cut.
pub open spec fn uci_cuts_ok(s: Seq<char>) -> bool {
    utf8_len(s) < 4 || (byte_boundary(s, 2) && byte_boundary(s, 4))
}

/// The origin square of a UCI move text: its first two characters, when
/// the text has at least four bytes.
pub open spec fn uci_origin(s: Seq<char>) -> Option<u8> {
    if utf8_len(s) < 4 {
        None
    } else {
        square_named(char_or(s, 0, 'a'), char_or(s, 1, '1'))
    }
}

/// A UCI move text read as origin, target and promotion (the promotion
/// letter only in a five-byte text); none unless both squares are named.
pub open spec fn uci_parts(s: Seq<char>) -> Option<(u8, u8, Option<crate::pieces::PieceType>)> {
    match (uci_origin(s), square_named(char_or(s, 2, 'a'), char_or(s, 3, '1'))) {
        (Some(f), Some(t)) => Some((f, t, if utf8_len(s) == 5 { promotion_named(s) } else { None })),
        _ => None,
    }
}

impl PuzzleGame {
    /// The texts of the solution.
    pub open spec fn solution(&self) -> Seq<String> {
        self.puzzle.puzzle.solution@
    }

    /// Every move text of the solution can be read as UCI is read.
    pub open spec fn solution_ok(&self) -> bool {
        forall|i: int| 0 <= i < self.solution().len() ==> uci_cuts_ok(#[trigger] self.solution()[i]@)
    }

    /// The waiting opponent answer, if any, can be read as UCI is read.
    pub open spec fn pending_ok(&self) -> bool {
        self.opponent_move_pending matches Some((t, _)) ==> uci_cuts_ok(t@)
    }

    /// A puzzle started now, with nothing played and nothing submitted.
    pub fn new(puzzle: Puzzle, rating_before: Option<u32>) -> (r: PuzzleGame)
        ensures
            r.puzzle == puzzle,
            r.solution_index == 0,
            r.opponent_move_pending is None,
            r.opponent_move_time is None,
            r.start_time is Some,
            !r.has_mistakes,
            !r.submitted,
            r.rating_before == rating_before,
            r.elo_change is None,
            r.elo_change_receiver is None,
    {
        PuzzleGame {
            puzzle,
            solution_index: 0,
            opponent_move_pending: None,
            opponent_move_time: None,
            start_time: Some(instant_now()),
            has_mistakes: false,
            submitted: false,
            rating_before,
            elo_change: None,
            elo_change_receiver: None,
        }
    }

    /// Takes in what the rating channel gave: a change of rating is kept
    /// and the channel dropped; with nothing received nothing changes.
    pub fn record_elo_change(&mut self, received: Option<i32>)
        ensures
            *final(self) == match received {
                Some(v) => PuzzleGame { elo_change: Some(v), elo_change_receiver: None, ..*old(self) },
                None => *old(self),
            },
    {
        if let Some(elo_change) = received {
            self.elo_change = Some(elo_change);
            self.elo_change_receiver = None;
        }
    }

    /// Looks whether the change of rating has arrived, without waiting, and
    /// takes it in (`record_elo_change`). Whether it has arrived depends on
    /// the thread that fetches it.
    pub fn check_elo_update(&mut self)
        ensures
            elo_checked(*old(self), *final(self)),
    {
        let received = match &self.elo_change_receiver {
            Some(rx) => try_receive(rx),
            None => None,
        };
        self.record_elo_change(received);
    }
}

/// A look at the rating channel (`p0` to `p1`): either nothing has
/// arrived and nothing changes, or, with a channel, a change of rating has
/// arrived and is kept, the channel then dropped. The rest of the puzzle
/// is untouched.
pub open spec fn elo_checked(p0: PuzzleGame, p1: PuzzleGame) -> bool {
    ||| p1 == p0
    ||| {
        &&& p0.elo_change_receiver is Some
        &&& p1.elo_change is Some
        &&& p1 == (PuzzleGame { elo_change: p1.elo_change, elo_change_receiver: None, ..p0 })
    }
}

/// The opponent's answer `text` played in the puzzle (`g0` to `g1`, with
/// the result `r`): text that names no move changes nothing; otherwise the
/// move chosen in the shown position is played, and when it is it is
/// recorded with the kind of the piece on its origin, the turn passes and
/// the board is shown unflipped.
pub open spec fn answer_played(g0: Game, g1: Game, text: Seq<char>, r: bool) -> bool {
    &&& g1.ui == g0.ui
    &&& g1.logic.bot == g0.logic.bot
    &&& g1.logic.opponent == g0.logic.opponent
    &&& g1.logic.game_state == g0.logic.game_state
    &&& match uci_parts(text) {
        None => !r && g1 == g0,
        Some((f, t, p)) => {
            let b0 = g0.logic.game_board;
            let b1 = g1.logic.game_board;
            let s = b0.shown();
            let c = crate::game_logic::game_board::chosen_move(s, f, t, p);
            &&& r == c is Some
            &&& crate::game_logic::game_board::positions_after_move(b0, b1, f, t, p)
            &&& b1.consecutive_non_pawn_or_capture == b0.consecutive_non_pawn_or_capture
            &&& match c {
                Some(m) => {
                    &&& b1.move_history@ == b0.move_history@.push(
                        match crate::chess::piece_on(s, f) {
                            Some(pc) => ChessMove::Normal {
                                role: pc.role,
                                from: f,
                                capture: crate::chess::move_capture(m),
                                to: t,
                                promotion: crate::chess::move_promotion(m),
                            },
                            None => m,
                        },
                    )
                    &&& g1.logic.player_turn != g0.logic.player_turn
                    &&& !b1.is_flipped
                },
                None => {
                    &&& b1.move_history@ == b0.move_history@
                    &&& g1.logic.player_turn == g0.logic.player_turn
                    &&& b1.is_flipped == b0.is_flipped
                },
            }
        },
    }
}

/// The message shown when the puzzle is solved.
pub open spec fn solved_message() -> Seq<char> {
    "Puzzle solved! Well done!"@
}

/// The message shown after a wrong move.
pub open spec fn wrong_message() -> Seq<char> {
    "Wrong move! Try again."@
}

/// Whether `r` is the submission `submit_completion` gives for `pg` with
/// `win` and `token`: none once submitted or without a token; otherwise the
/// token, the puzzle, the outcome, the rating before and the time taken
/// (which depends on the clock; zero without a start time).
pub open spec fn submission_for(pg: PuzzleGame, win: bool, token: Option<String>, r: Option<PuzzleSubmission>) -> bool {
    if pg.submitted || token is None {
        r is None
    } else {
        &&& r matches Some(sub) && {
            &&& sub.token == token->0
            &&& sub.puzzle_id == pg.puzzle.puzzle.id
            &&& sub.win == win
            &&& sub.rating_before == pg.rating_before
            &&& pg.start_time is None ==> sub.time_ms == 0
        }
    }
}

/// Taking back the player's last move (`g0` to `g1`): the move and its
/// position are removed, the turn follows the position shown, the selection
/// is dropped, and a pending promotion is cancelled. Nothing happens
/// without a move.
pub open spec fn move_taken_back(g0: Game, g1: Game) -> bool {
    let b0 = g0.logic.game_board;
    let b1 = g1.logic.game_board;
    if b0.move_history@.len() == 0 {
        g1 == g0
    } else {
        &&& b1.move_history@ == b0.move_history@.drop_last()
        &&& b1.position_history@ == (if b0.position_history@.len() > 0 {
            b0.position_history@.drop_last()
        } else {
            b0.position_history@
        })
        &&& b1.taken_pieces@ == b0.taken_pieces@
        &&& b1.history_position_index == b0.history_position_index
        &&& b1.is_flipped == b0.is_flipped
        &&& g1.logic.player_turn == synced_turn(b1, g0.logic.player_turn)
        &&& g1.logic.game_state == (if g0.logic.game_state == GameState::Promotion {
            GameState::Playing
        } else {
            g0.logic.game_state
        })
        &&& g1.logic.bot == g0.logic.bot
        &&& g1.logic.opponent == g0.logic.opponent
        &&& g0.ui.selected_square is Some ==> g1.ui == (crate::game_logic::ui::UI {
            selected_square: None,
            selected_piece_cursor: 0,
            cursor_coordinates: g0.ui.old_cursor_position,
            ..g0.ui
        })
        &&& g0.ui.selected_square is None ==> g1.ui == g0.ui
    }
}

/// The player's move `uci` checked against the solution of `p0` (`p0`,
/// `g0` to `p1`, `g1`, with the verdict `r`). When the puzzle is over, it
/// counts as correct and nothing changes. The expected move advances the
/// solution; the last one solves the puzzle (submitted as a win when there
/// was no mistake), otherwise the opponent's answer is scheduled. Any other
/// move is a mistake: the result is submitted as a loss and the move taken
/// back (`move_taken_back`).
pub open spec fn move_checked(
    p0: PuzzleGame,
    g0: Game,
    uci: Seq<char>,
    token: Option<String>,
    p1: PuzzleGame,
    g1: Game,
    r: MoveVerdict,
) -> bool {
    &&& p1.puzzle == p0.puzzle
    &&& p1.rating_before == p0.rating_before
    &&& if p0.solution_index >= p0.solution().len() {
        &&& r.correct && r.message is None && r.submission is None
        &&& p1 == p0
        &&& g1 == g0
    } else {
        let i = p0.solution_index as int;
        let n = p0.solution().len();
        if uci == p0.solution()[i]@ {
            &&& r.correct
            &&& p1.solution_index == i + 1
            &&& g1 == g0
            &&& p1.has_mistakes == p0.has_mistakes
            &&& if i + 1 >= n {
                &&& r.message matches Some(m) && m@ == solved_message()
                &&& submission_for(p0, !p0.has_mistakes, token, r.submission)
                &&& p1.submitted == (p0.submitted || token is Some)
                &&& p1.opponent_move_pending == p0.opponent_move_pending
            } else {
                &&& r.message is None && r.submission is None
                &&& p1.opponent_move_pending == Some((p0.solution()[i + 1], 1usize))
                &&& p1.opponent_move_time is Some
                &&& p1.submitted == p0.submitted
            }
        } else {
            &&& !r.correct
            &&& r.message matches Some(m) && m@ == wrong_message()
            &&& p1.has_mistakes
            &&& p1.solution_index == p0.solution_index
            &&& submission_for(p0, false, token, r.submission)
            &&& p1.submitted == (p0.submitted || token is Some)
            &&& move_taken_back(g0, g1)
        }
    }
}

impl PuzzleGame {
    /// The origin square of the next move of the solution, if there is one.
    pub fn get_next_move_from_square(&self) -> (r: Option<u8>)
        requires
            self.solution_ok(),
        ensures
            r == (if self.solution_index < self.solution().len() {
                uci_origin(self.solution()[self.solution_index as int]@)
            } else {
                None
            }),
            r matches Some(sq) ==> sq < 64,
    {
        if self.solution_index >= self.puzzle.puzzle.solution.len() {
            return None;
        }
        let next_move_uci = chars_of(self.puzzle.puzzle.solution[self.solution_index].as_str());
        if !has_utf8_len_at_least(&next_move_uci, 4) {
            return None;
        }
        let file = if next_move_uci.len() > 0 { next_move_uci[0] } else { 'a' };
        let rank = if next_move_uci.len() > 1 { next_move_uci[1] } else { '1' };
        square_from_chars(file, rank)
    }

    /// Decides the submission of the result (see `submission_for`): once,
    /// and only with a token; the result is then marked as submitted. The
    /// application sends it and listens for the change of rating.
    pub fn submit_completion(&mut self, win: bool, token: Option<String>) -> (r: Option<PuzzleSubmission>)
        ensures
            submission_for(*old(self), win, token, r),
            final(self).submitted == (old(self).submitted || token is Some),
            final(self).puzzle == old(self).puzzle,
            final(self).solution_index == old(self).solution_index,
            final(self).opponent_move_pending == old(self).opponent_move_pending,
            final(self).has_mistakes == old(self).has_mistakes,
            final(self).rating_before == old(self).rating_before,
            final(self).elo_change == old(self).elo_change,
            final(self).start_time == old(self).start_time,
            final(self).opponent_move_time == old(self).opponent_move_time,
    {
        if self.submitted {
            return None;
        }
        match token {
            Some(token) => {
                let time_ms: u32 = match &self.start_time {
                    Some(start) => (elapsed_nanos(start) / 1_000_000) as u32,
                    None => 0,
                };
                self.submitted = true;
                Some(
                    PuzzleSubmission {
                        token,
                        puzzle_id: self.puzzle.puzzle.id.clone(),
                        win,
                        time_ms,
                        rating_before: self.rating_before,
                    },
                )
            },
            None => None,
        }
    }

    /// Takes back the player's last move (see `move_taken_back`).
    pub fn reset_last_move(&self, game: &mut Game)
        ensures
            move_taken_back(*old(game), *final(game)),
    {
        if game.logic.game_board.move_history.len() > 0 {
            game.logic.game_board.move_history.pop();
            game.logic.game_board.position_history.pop();
            game.logic.sync_player_turn_with_position();
            game.ui.unselect_cell();
            if game.logic.game_state == GameState::Promotion {
                game.logic.game_state = GameState::Playing;
            }
        }
    }
}

impl PuzzleGame {
    /// Checks the player's move (UCI text) against the solution (see
    /// `move_checked`).
    pub fn validate_move(&mut self, move_uci: &str, game: &mut Game, lichess_token: Option<String>) -> (r: MoveVerdict)
        ensures
            move_checked(*old(self), *old(game), move_uci@, lichess_token, *final(self), *final(game), r),
    {
        let n = self.puzzle.puzzle.solution.len();
        if self.solution_index >= n {
            return MoveVerdict { correct: true, message: None, submission: None };
        }
        let expected = chars_of(self.puzzle.puzzle.solution[self.solution_index].as_str());
        let is_correct = crate::text::chars_eq(&chars_of(move_uci), &expected);
        if is_correct {
            self.solution_index = self.solution_index + 1;
            if self.solution_index >= n {
                let win = !self.has_mistakes;
                let submission = self.submit_completion(win, lichess_token);
                return MoveVerdict {
                    correct: true,
                    message: Some(String::from_str("Puzzle solved! Well done!")),
                    submission,
                };
            }
            let opponent_move_uci = self.puzzle.puzzle.solution[self.solution_index].clone();
            self.opponent_move_pending = Some((opponent_move_uci, 1));
            self.opponent_move_time = Some(instant_now());
            MoveVerdict { correct: true, message: None, submission: None }
        } else {
            self.has_mistakes = true;
            let submission = self.submit_completion(false, lichess_token);
            self.reset_last_move(game);
            MoveVerdict { correct: false, message: Some(String::from_str("Wrong move! Try again.")), submission }
        }
    }

    /// Plays the opponent's answer, given as UCI text (see `uci_parts`), in
    /// the shown position. When it is played it is recorded (with the kind
    /// of the piece on its origin, if any), the turn passes and the board
    /// is shown unflipped. Whether it was played.
    pub fn apply_opponent_move(&self, move_uci: &str, game: &mut Game) -> (r: bool)
        requires
            uci_cuts_ok(move_uci@),
            old(game).logic.game_board.position_history@.len() > 0,
        ensures
            answer_played(*old(game), *final(game), move_uci@, r),
    {
        let text = chars_of(move_uci);
        if !has_utf8_len_at_least(&text, 4) {
            return false;
        }
        let c0 = if text.len() > 0 { text[0] } else { 'a' };
        let c1 = if text.len() > 1 { text[1] } else { '1' };
        let c2 = if text.len() > 2 { text[2] } else { 'a' };
        let c3 = if text.len() > 3 { text[3] } else { '1' };
        let from = match square_from_chars(c0, c1) {
            Some(sq) => sq,
            None => {
                return false;
            },
        };
        let to = match square_from_chars(c2, c3) {
            Some(sq) => sq,
            None => {
                return false;
            },
        };
        let five_bytes = has_utf8_len_at_least(&text, 5) && !has_utf8_len_at_least(&text, 6);
        let promotion = if five_bytes && text.len() == 5 {
            let c = text[4];
            if c == 'q' {
                Some(crate::pieces::PieceType::Queen)
            } else if c == 'r' {
                Some(crate::pieces::PieceType::Rook)
            } else if c == 'b' {
                Some(crate::pieces::PieceType::Bishop)
            } else if c == 'n' {
                Some(crate::pieces::PieceType::Knight)
            } else {
                None
            }
        } else {
            None
        };
        let piece_type_from = game.logic.game_board.get_role_at_square(from);
        if let Some(executed_move) = game.logic.game_board.execute_move(from, to, promotion) {
            match piece_type_from {
                Some(piece_type) => {
                    game.logic.game_board.move_history.push(
                        ChessMove::Normal {
                            role: piece_type,
                            from,
                            capture: executed_move.capture(),
                            to,
                            promotion: executed_move.promotion(),
                        },
                    );
                },
                None => {
                    game.logic.game_board.move_history.push(executed_move);
                },
            }
            game.logic.switch_player_turn();
            game.logic.game_board.is_flipped = false;
            true
        } else {
            false
        }
    }
}

/// The opponent's waiting answer looked at `waited` nanoseconds after it
/// was scheduled (`p0`, `g0` to `p1`, `g1`, with the message and the
/// result to submit `r`): once a second is up the answer is no longer
/// waiting, it is played (`answer_played`), and when it is, the solution
/// advances; reaching its end solves the puzzle (submitted as a win when
/// there was no mistake). Before the second is up, or with nothing
/// waiting, nothing changes.
pub open spec fn answer_checked(
    p0: PuzzleGame,
    g0: Game,
    token: Option<String>,
    waited: int,
    p1: PuzzleGame,
    g1: Game,
    r: (Option<String>, Option<PuzzleSubmission>),
) -> bool {
    &&& p1.puzzle == p0.puzzle
    &&& p1.has_mistakes == p0.has_mistakes
    &&& if !(p0.opponent_move_pending is Some && p0.opponent_move_time is Some && waited >= OPPONENT_DELAY_NANOS) {
        &&& p1 == p0
        &&& g1 == g0
        &&& r.0 is None && r.1 is None
    } else {
        let (text, k) = p0.opponent_move_pending->0;
        &&& p1.opponent_move_pending is None
        &&& p1.opponent_move_time is None
        &&& exists|played: bool| #[trigger] answer_played(g0, g1, text@, played) && if played {
            &&& p1.solution_index == p0.solution_index + k
            &&& if p0.solution_index + k >= p0.solution().len() {
                &&& r.0 matches Some(m) && m@ == solved_message()
                &&& submission_for(p0, !p0.has_mistakes, token, r.1)
            } else {
                r.0 is None && r.1 is None
            }
        } else {
            &&& p1.solution_index == p0.solution_index
            &&& r.0 is None && r.1 is None
        }
    }
}

/// One second, in nanoseconds: how long the opponent's answer waits.
pub const OPPONENT_DELAY_NANOS: u128 = 1_000_000_000u128;

impl PuzzleGame {
    /// Plays the opponent's waiting answer once `waited_nanos` (the time
    /// since it was scheduled) reaches a second (see `answer_checked`).
    /// Gives the message to show and the result to submit.
    pub fn check_pending_move_at(
        &mut self,
        game: &mut Game,
        lichess_token: Option<String>,
        waited_nanos: u128,
    ) -> (r: (Option<String>, Option<PuzzleSubmission>))
        requires
            old(self).pending_ok(),
            old(game).logic.game_board.position_history@.len() > 0,
            old(self).opponent_move_pending matches Some((_, k)) ==> old(self).solution_index + k <= usize::MAX,
        ensures
            answer_checked(*old(self), *old(game), lichess_token, waited_nanos as int, *final(self), *final(game), r),
    {
        if self.opponent_move_time.is_none() || waited_nanos < OPPONENT_DELAY_NANOS {
            return (None, None);
        }
        let (move_uci, index_to_advance) = match self.opponent_move_pending.take() {
            Some(pending) => pending,
            None => {
                return (None, None);
            },
        };
        self.opponent_move_time = None;
        let played = self.apply_opponent_move(move_uci.as_str(), game);
        proof {
            assert(answer_played(*old(game), *game, move_uci@, played));
        }
        if played {
            self.solution_index = self.solution_index + index_to_advance;
            if self.solution_index >= self.puzzle.puzzle.solution.len() {
                let win = !self.has_mistakes;
                let submission = self.submit_completion(win, lichess_token);
                return (Some(String::from_str("Puzzle solved! Well done!")), submission);
            }
        }
        (None, None)
    }

    /// `check_pending_move_at` with the time since the answer was
    /// scheduled read from the system clock: `answer_checked` for that
    /// time (nothing is waiting without a schedule time).
    pub fn check_pending_move(&mut self, game: &mut Game, lichess_token: Option<String>) -> (r: (
        Option<String>,
        Option<PuzzleSubmission>,
    ))
        requires
            old(self).pending_ok(),
            old(game).logic.game_board.position_history@.len() > 0,
            old(self).opponent_move_pending matches Some((_, k)) ==> old(self).solution_index + k <= usize::MAX,
        ensures
            exists|waited: int|
                0 <= waited && #[trigger] answer_checked(
                    *old(self),
                    *old(game),
                    lichess_token,
                    waited,
                    *final(self),
                    *final(game),
                    r,
                ),
            old(self).opponent_move_time is None ==> *final(self) == *old(self) && *final(game) == *old(game)
                && r.0 is None && r.1 is None,
    {
        let waited = match &self.opponent_move_time {
            Some(start) => elapsed_nanos(start),
            None => 0,
        };
        let r = self.check_pending_move_at(game, lichess_token, waited);
        proof {
            assert(answer_checked(*old(self), *old(game), lichess_token, waited as int, *self, *game, r));
        }
        r
    }

    /// Shows where the next move of the solution starts: while the game is
    /// being played and there is a next move, the cursor goes to its origin
    /// as shown and the piece there is selected (`cell_selected`).
    /// Otherwise nothing changes.
    pub fn show_hint(&self, game: &mut Game)
        requires
            self.solution_ok(),
            game_ready(*old(game)),
        ensures
            (old(game).logic.game_state != GameState::Playing || self.get_next_hint() is None)
                ==> *final(game) == *old(game),
            (old(game).logic.game_state == GameState::Playing && self.get_next_hint() is Some)
                ==> cell_selected(
                Game {
                    ui: crate::game_logic::ui::UI {
                        cursor_coordinates: shown_coord(
                            self.get_next_hint()->0,
                            old(game).logic.game_board.is_flipped,
                        ),
                        ..old(game).ui
                    },
                    ..*old(game)
                },
                *final(game),
            ),
    {
        if game.logic.game_state != GameState::Playing {
            return;
        }
        if let Some(from_square) = self.get_next_move_from_square() {
            let f = crate::board::flip_square_if_needed(from_square, game.logic.game_board.is_flipped);
            game.ui.cursor_coordinates = Coord::from_square(f);
            game.select_cell();
        }
    }

    /// The origin of the next move of the solution, if any.
    pub open spec fn get_next_hint(&self) -> Option<u8> {
        if self.solution_index < self.solution().len() {
            uci_origin(self.solution()[self.solution_index as int]@)
        } else {
            None
        }
    }
}

/// The start of the last blank line in `s` before index `k`: the largest
/// `i < k` with a line break at `i` and at `i + 1`.
pub open spec fn last_pair_before(s: Seq<char>, k: int) -> Option<int>
    decreases k,
{
    if k <= 0 {
        None
    } else if k < s.len() && s[k - 1] == '\n' && s[k] == '\n' {
        Some(k - 1)
    } else {
        last_pair_before(s, k - 1)
    }
}

/// The moves part of a PGN: what follows its last blank line (the headers
/// come before it), or all of it when there is none.
pub open spec fn pgn_moves_section(pgn: Seq<char>) -> Seq<char> {
    match last_pair_before(pgn, pgn.len() - 1) {
        Some(i) => pgn.skip(i + 2),
        None => pgn,
    }
}

/// Whether a PGN word is a move: not a move number ("12.") and not a
/// result.
pub open spec fn is_move_word(w: Seq<char>) -> bool {
    !has_suffix(w, "."@) && w != "*"@ && w != "1-0"@ && w != "0-1"@ && w != "1/2-1/2"@
}

/// The moves among PGN words, in order.
pub open spec fn move_words(ws: Seq<Seq<char>>) -> Seq<Seq<char>>
    decreases ws.len(),
{
    if ws.len() == 0 {
        seq![]
    } else {
        let rest = move_words(ws.drop_last());
        if is_move_word(ws.last()) {
            rest.push(ws.last())
        } else {
            rest
        }
    }
}

/// Replaying SAN moves from `pos`: a word that is not a legal move there is
/// skipped. Gives the moves played and the positions reached.
pub open spec fn replay_san(pos: Seq<char>, toks: Seq<Seq<char>>) -> (Seq<ChessMove>, Seq<Seq<char>>)
    decreases toks.len(),
{
    if toks.len() == 0 {
        (seq![], seq![])
    } else {
        match san_move_in(pos, toks[0]) {
            None => replay_san(pos, toks.drop_first()),
            Some(m) => match position_after(pos, m) {
                Some(next) => {
                    let r = replay_san(next, toks.drop_first());
                    (seq![m] + r.0, seq![next] + r.1)
                },
                None => replay_san(START_FEN@, toks.drop_first()),
            },
        }
    }
}

/// The moves and positions of a puzzle's game: its moves part replayed
/// from the starting position.
pub open spec fn puzzle_replay(pgn: Seq<char>) -> (Seq<ChessMove>, Seq<Seq<char>>) {
    replay_san(START_FEN@, move_words(words(pgn_moves_section(pgn))))
}

/// The moves part of a PGN text.
fn moves_section_of(pgn: &Vec<char>) -> (r: Vec<char>)
    ensures
        r@ == pgn_moves_section(pgn@),
{
    if pgn.len() < 2 {
        proof {
            assert(last_pair_before(pgn@, pgn@.len() - 1) is None);
        }
        return pgn.clone();
    }
    let mut k: usize = pgn.len() - 1;
    while k > 0
        invariant
            k < pgn.len(),
            last_pair_before(pgn@, pgn@.len() - 1) == last_pair_before(pgn@, k as int),
        decreases k,
    {
        if pgn[k - 1] == '\n' && pgn[k] == '\n' {
            return slice_chars(pgn, k + 1, pgn.len());
        }
        k -= 1;
    }
    pgn.clone()
}

/// The moves among PGN words.
fn keep_move_words(ws: &Vec<Vec<char>>) -> (r: Vec<Vec<char>>)
    ensures
        views(r@) == move_words(views(ws@)),
{
    let mut out: Vec<Vec<char>> = Vec::new();
    let mut i: usize = 0;
    let dot = chars_of(".");
    let star = chars_of("*");
    let white_wins = chars_of("1-0");
    let black_wins = chars_of("0-1");
    let drawn = chars_of("1/2-1/2");
    while i < ws.len()
        invariant
            i <= ws@.len(),
            dot@ == "."@,
            star@ == "*"@,
            white_wins@ == "1-0"@,
            black_wins@ == "0-1"@,
            drawn@ == "1/2-1/2"@,
            views(out@) == move_words(views(ws@).subrange(0, i as int)),
        decreases ws@.len() - i,
    {
        let w = &ws[i];
        proof {
            assert(views(ws@).subrange(0, i as int + 1).drop_last() =~= views(ws@).subrange(0, i as int));
        }
        if !ends_with(w, &dot) && !chars_eq(w, &star) && !chars_eq(w, &white_wins) && !chars_eq(w, &black_wins)
            && !chars_eq(w, &drawn) {
            out.push(w.clone());
            proof {
                assert(views(out@) =~= move_words(views(ws@).subrange(0, i as int + 1)));
            }
        }
        i += 1;
    }
    proof {
        assert(views(ws@).subrange(0, ws@.len() as int) =~= views(ws@));
    }
    out
}

impl PuzzleGame {
    /// Sets the board up for a fetched puzzle: the moves of its game are
    /// replayed from the starting position (`puzzle_replay`), and the board
    /// gets those moves and positions, following the latest one. An error
    /// from fetching is passed on and the board is left alone.
    pub fn load(fetched: Result<Puzzle, String>, game_board: &mut GameBoard) -> (r: Result<Puzzle, String>)
        ensures
            r == fetched,
            match fetched {
                Ok(p) => {
                    let rp = puzzle_replay(p.game.pgn@);
                    &&& final(game_board).move_history@ == rp.0
                    &&& final(game_board).fens() == seq![START_FEN@] + rp.1
                    &&& final(game_board).history_position_index is None
                    &&& final(game_board).taken_pieces@ == old(game_board).taken_pieces@
                    &&& final(game_board).is_flipped == old(game_board).is_flipped
                },
                Err(_) => *final(game_board) == *old(game_board),
            },
    {
        let puzzle = match fetched {
            Ok(p) => p,
            Err(e) => {
                return Err(e);
            },
        };
        let pgn = chars_of(puzzle.game.pgn.as_str());
        let section = moves_section_of(&pgn);
        let words = split_whitespace(&section);
        let tokens = keep_move_words(&words);
        let ghost toks = views(tokens@);
        let ghost all = replay_san(START_FEN@, toks);
        let mut position = initial_position();
        let mut position_history: Vec<String> = Vec::new();
        position_history.push(initial_position());
        let mut move_history: Vec<ChessMove> = Vec::new();
        let mut i: usize = 0;
        proof {
            assert(toks.skip(0) =~= toks);
            assert(move_history@ + all.0 =~= all.0);
            assert(crate::game_logic::game_board::fens(position_history@) =~= seq![START_FEN@]);
        }
        while i < tokens.len()
            invariant
                i <= tokens@.len(),
                toks == views(tokens@),
                all == replay_san(START_FEN@, toks),
                move_history@ + replay_san(position@, toks.skip(i as int)).0 == all.0,
                crate::game_logic::game_board::fens(position_history@) + replay_san(
                    position@,
                    toks.skip(i as int),
                ).1 == seq![START_FEN@] + all.1,
            decreases tokens@.len() - i,
        {
            let tok = string_of(&tokens[i]);
            let ghost before_moves = move_history@;
            let ghost before_positions = position_history@;
            let ghost pos0 = position@;
            proof {
                assert(toks.skip(i as int).drop_first() =~= toks.skip(i as int + 1));
                assert(toks.skip(i as int)[0] == toks[i as int]);
            }
            match san_to_move(position.as_str(), tok.as_str()) {
                Some(chess_move) => {
                    match play(position.as_str(), &chess_move) {
                        Some(new_position) => {
                            move_history.push(chess_move);
                            position_history.push(new_position.clone());
                            position = new_position;
                            proof {
                                assert(move_history@ =~= before_moves.push(chess_move));
                                assert(crate::game_logic::game_board::fens(position_history@) =~= crate::game_logic::game_board::fens(before_positions).push(position@));
                                let r = replay_san(position@, toks.skip(i as int + 1));
                                assert(before_moves + (seq![chess_move] + r.0) =~= move_history@ + r.0);
                                assert(crate::game_logic::game_board::fens(before_positions) + (seq![position@] + r.1) =~= crate::game_logic::game_board::fens(position_history@) + r.1);
                            }
                        },
                        None => {
                            position = initial_position();
                        },
                    }
                },
                None => {},
            }
            i += 1;
        }
        proof {
            assert(toks.skip(i as int) =~= Seq::<Seq<char>>::empty());
            assert(move_history@ + Seq::<ChessMove>::empty() =~= move_history@);
            assert(crate::game_logic::game_board::fens(position_history@) + Seq::<Seq<char>>::empty() =~= crate::game_logic::game_board::fens(position_history@));
        }
        game_board.position_history = position_history;
        game_board.move_history = move_history;
        game_board.history_position_index = None;
        Ok(puzzle)
    }
}

/// Taking back a move puts the record back: after the player's move was
/// played (`player_move_made`) and then removed as `reset_last_move`
/// removes it, the moves and the positions are those from before.
pub proof fn lemma_take_back_restores(b0: GameBoard, b1: GameBoard, b2: GameBoard, from: u8, to: u8)
    requires
        crate::game_logic::game::player_move_made(b0, b1, from, to),
        crate::chess::piece_on(b0.shown(), from) is Some,
        crate::game_logic::game_board::chosen_move(b0.shown(), from, to, None) is Some,
        b2.move_history@ == b1.move_history@.drop_last(),
        b2.position_history@ == b1.position_history@.drop_last(),
    ensures
        b2.move_history@ == b0.move_history@,
        b2.fens() == b0.fens(),
{
    lemma_fens_len(b0.position_history@);
    lemma_fens_len(b1.position_history@);
    assert(b2.fens() =~= b1.fens().drop_last());
    assert(b1.fens().drop_last() =~= b0.fens());
    assert(b1.move_history@.drop_last() =~= b0.move_history@);
}

} // verus!
