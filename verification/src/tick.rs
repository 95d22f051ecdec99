//! A tick of the application: the puzzle's change of rating and waiting
//! answer, the clock running out, and the opponent's moves.
//!
//! What is read from outside (the time, what the opponent's stream gave) is
//! handed in; `tick_at` decides from it. `opponent_read_due` says when the
//! opponent's stream is to be read.

use vstd::prelude::*;
use crate::cell_click::end_checked;
use crate::game_logic::clock::Clock;
use crate::game_logic::game::{Game, GameLogic, fens_or_start, opponent_text_handled};
use crate::game_logic::game_board::lemma_fens_len;
use crate::game_logic::opponent::OpponentKind;
use crate::game_logic::puzzle::{PuzzleGame, PuzzleSubmission, answer_checked, answer_played, elo_checked};
use crate::pieces::PieceColor;
use crate::session::{check_and_show_game_end, end_on_time_at, other_side, show_puzzle_verdict, time_checked, verdict_shown};
use crate::state::UiState;
use crate::time::elapsed_nanos;

verus! {

/// What a tick leaves to do, and what came of it.
#[derive(Debug)]
pub struct TickOutcome {
    /// The puzzle result to submit.
    pub submission: Option<PuzzleSubmission>,
    /// The side out of time.
    pub out_of_time: Option<PieceColor>,
    /// Whether the opponent's move was played.
    pub opponent_moved: bool,
}

/// The puzzle's part of a tick, `waited` nanoseconds after its answer was
/// scheduled (`g0`, `ui0`, `pz0` to `g1`, `ui1`, `pz1`, with the result to
/// submit `sub`): out of a puzzle nothing happens; in one, the rating
/// channel is looked at (`elo_checked`), the waiting answer too
/// (`answer_checked`), and its message, if any, is shown in the puzzle's
/// end screen.
pub open spec fn puzzle_ticked(
    g0: Game,
    ui0: UiState,
    pz0: Option<PuzzleGame>,
    token: Option<String>,
    waited: int,
    g1: Game,
    ui1: UiState,
    pz1: Option<PuzzleGame>,
    sub: Option<PuzzleSubmission>,
) -> bool {
    match pz0 {
        None => g1 == g0 && ui1 == ui0 && pz1 is None && sub is None,
        Some(p0) => pz1 matches Some(p1) && exists|pe: PuzzleGame, msg: Option<String>|
            #[trigger] elo_checked(p0, pe) && #[trigger] answer_checked(pe, g0, token, waited, p1, g1, (msg, sub))
                && ui1 == verdict_shown(ui0, true, msg),
    }
}

/// The clock's part of a tick, `elapsed` nanoseconds into the turn (`l0`,
/// `c0`, `ui0` to `l1`, `c1`, `ui1`, with the side out of time `loser`):
/// without a clock nothing happens; with one, it is looked at
/// (`time_checked`).
pub open spec fn clock_ticked(
    l0: GameLogic,
    c0: Option<Clock>,
    ui0: UiState,
    in_puzzle: bool,
    elapsed: int,
    l1: GameLogic,
    c1: Option<Clock>,
    ui1: UiState,
    loser: Option<PieceColor>,
) -> bool {
    match c0 {
        None => l1 == l0 && c1 is None && ui1 == ui0 && loser is None,
        Some(c) => c1 matches Some(cc) && time_checked(l0, c, ui0, in_puzzle, elapsed, l1, cc, ui1, loser),
    }
}

/// Whether the opponent's stream is to be read: out of a puzzle, with an
/// opponent, always in a Lichess game (its moves arrive at any time), in
/// another game when it is the opponent's turn.
pub open spec fn opponent_read_due(g: Game, in_puzzle: bool) -> bool {
    &&& !in_puzzle
    &&& g.logic.opponent matches Some(o) && (o.kind matches Some(OpponentKind::Lichess { .. })
        || g.logic.player_turn == o.color)
}

/// What the opponent's stream gave, if anything, handled (`l0` to `l1`,
/// with whether a move was played `r`; see `opponent_text_handled`).
pub open spec fn text_taken(l0: GameLogic, text: Option<String>, l1: GameLogic, r: bool) -> bool {
    match text {
        Some(t) => opponent_text_handled(l0, t@, l1, r),
        None => l1 == l0 && !r,
    }
}

/// The turn handed to the other side.
pub open spec fn switched(l: GameLogic) -> GameLogic {
    GameLogic { player_turn: other_side(l.player_turn), ..l }
}

/// The opponent's part of a tick (`g0`, `ui0` to `g1`, `ui1`, with whether
/// the opponent's move was played `moved`), `text` being what its stream
/// gave: nothing happens in a puzzle or without an opponent. In a Lichess
/// game the text is handled (`text_taken`), the turn passes when a move was
/// played, and the end of the game is looked for. In another game, on the
/// opponent's turn, the text is handled and, when a move was played, the
/// turn passes and the end of the game is looked for; on the player's turn
/// nothing happens.
pub open spec fn opponent_ticked(
    g0: Game,
    ui0: UiState,
    in_puzzle: bool,
    text: Option<String>,
    g1: Game,
    ui1: UiState,
    moved: bool,
) -> bool {
    if in_puzzle || g0.logic.opponent is None {
        g1 == g0 && ui1 == ui0 && !moved
    } else if g0.logic.opponent->0.kind matches Some(OpponentKind::Lichess { .. }) {
        exists|lm: GameLogic| #[trigger] text_taken(g0.logic, text, lm, moved) && end_checked(
            Game { logic: if moved { switched(lm) } else { lm }, ..g0 },
            ui0,
            false,
            g1,
            ui1,
        )
    } else if g0.logic.player_turn == g0.logic.opponent->0.color {
        exists|lm: GameLogic| #[trigger] text_taken(g0.logic, text, lm, moved) && if moved {
            end_checked(Game { logic: switched(lm), ..g0 }, ui0, false, g1, ui1)
        } else {
            g1 == (Game { logic: lm, ..g0 }) && ui1 == ui0
        }
    } else {
        g1 == g0 && ui1 == ui0 && !moved
    }
}

/// A tick (`g0`, `c0`, `ui0`, `pz0` to `g1`, `c1`, `ui1`, `pz1`, with what
/// came of it `r`), `waited` nanoseconds after the puzzle's answer was
/// scheduled and `elapsed` into the clock's turn, `text` being what the
/// opponent's stream gave: the puzzle's part (`puzzle_ticked`), the
/// clock's (`clock_ticked`), then the opponent's (`opponent_ticked`).
pub open spec fn ticked(
    g0: Game,
    c0: Option<Clock>,
    ui0: UiState,
    pz0: Option<PuzzleGame>,
    token: Option<String>,
    waited: int,
    elapsed: int,
    text: Option<String>,
    g1: Game,
    c1: Option<Clock>,
    ui1: UiState,
    pz1: Option<PuzzleGame>,
    r: TickOutcome,
) -> bool {
    exists|ga: Game, uia: UiState, la: GameLogic, uib: UiState|
        #[trigger] puzzle_ticked(g0, ui0, pz0, token, waited, ga, uia, pz1, r.submission)
            && #[trigger] clock_ticked(ga.logic, c0, uia, pz0 is Some, elapsed, la, c1, uib, r.out_of_time)
            && opponent_ticked(Game { logic: la, ..ga }, uib, pz0 is Some, text, g1, ui1, r.opponent_moved)
}

/// A puzzle answer played keeps a position.
proof fn lemma_answer_keeps_positions(g0: Game, g1: Game, text: Seq<char>, r: bool)
    requires
        g0.logic.game_board.position_history@.len() > 0,
        answer_played(g0, g1, text, r),
    ensures
        g1.logic.game_board.position_history@.len() > 0,
{
    lemma_fens_len(g0.logic.game_board.position_history@);
    lemma_fens_len(g1.logic.game_board.position_history@);
}

/// Handling what the opponent's stream gave keeps a position.
proof fn lemma_text_keeps_positions(l0: GameLogic, text: Option<String>, l1: GameLogic, r: bool)
    requires
        l0.game_board.position_history@.len() > 0,
        text_taken(l0, text, l1, r),
    ensures
        l1.game_board.position_history@.len() > 0,
{
    lemma_fens_len(l0.game_board.position_history@);
    lemma_fens_len(l1.game_board.position_history@);
    assert(fens_or_start(l0.game_board.fens()).len() > 0);
}

/// A look at the rating channel leaves the rest of the puzzle as it was.
proof fn lemma_elo_keeps_the_rest(p0: PuzzleGame, p1: PuzzleGame)
    requires
        elo_checked(p0, p1),
    ensures
        p1.puzzle == p0.puzzle,
        p1.solution_index == p0.solution_index,
        p1.opponent_move_pending == p0.opponent_move_pending,
        p1.opponent_move_time == p0.opponent_move_time,
{
}

/// Whether the opponent's stream is to be read (see `opponent_read_due`).
pub fn opponent_read_is_due(game: &Game, in_puzzle: bool) -> (r: bool)
    ensures
        r == opponent_read_due(*game, in_puzzle),
{
    if in_puzzle {
        return false;
    }
    match &game.logic.opponent {
        None => false,
        Some(o) => match &o.kind {
            Some(OpponentKind::Lichess { .. }) => true,
            _ => game.logic.player_turn == o.color,
        },
    }
}

/// A tick, `answer_waited` nanoseconds after the puzzle's answer was
/// scheduled and `turn_elapsed` into the clock's turn, `opponent_text`
/// being what the opponent's stream gave (see `ticked`). The game has a
/// position; the puzzle's waiting answer can be read as UCI is read and
/// the solution has room for it; the opponent's count of moves has room
/// for one more.
#[verifier::rlimit(40)]
pub fn tick_at(
    game: &mut Game,
    clock: &mut Option<Clock>,
    ui: &mut UiState,
    puzzle: &mut Option<PuzzleGame>,
    token: Option<String>,
    answer_waited: u128,
    turn_elapsed: u128,
    opponent_text: Option<String>,
) -> (r: TickOutcome)
    requires
        old(game).logic.game_board.position_history@.len() > 0,
        *old(puzzle) matches Some(p) ==> p.pending_ok() && (p.opponent_move_pending matches Some((_, k))
            ==> p.solution_index + k <= usize::MAX),
        old(game).logic.opponent matches Some(o) ==> o.moves_received < usize::MAX,
    ensures
        ticked(
            *old(game),
            *old(clock),
            *old(ui),
            *old(puzzle),
            token,
            answer_waited as int,
            turn_elapsed as int,
            opponent_text,
            *final(game),
            *final(clock),
            *final(ui),
            *final(puzzle),
            r,
        ),
{
    let in_puzzle = puzzle.is_some();
    let mut submission: Option<PuzzleSubmission> = None;
    let ghost g0 = *game;
    let ghost ui0 = *ui;
    if let Some(mut pg) = puzzle.take() {
        let ghost p0 = pg;
        pg.check_elo_update();
        let ghost pe = pg;
        proof {
            lemma_elo_keeps_the_rest(p0, pe);
        }
        let (message, sub) = pg.check_pending_move_at(game, token, answer_waited);
        proof {
            if pe.opponent_move_pending is Some && pe.opponent_move_time is Some
                && answer_waited >= crate::game_logic::puzzle::OPPONENT_DELAY_NANOS {
                let (text, k) = pe.opponent_move_pending->0;
                let played = choose|played: bool| #[trigger] answer_played(g0, *game, text@, played);
                lemma_answer_keeps_positions(g0, *game, text@, played);
            }
        }
        let ghost msg = message;
        submission = sub;
        show_puzzle_verdict(ui, true, message);
        *puzzle = Some(pg);
        proof {
            assert(elo_checked(p0, pe));
            assert(answer_checked(pe, g0, token, answer_waited as int, pg, *game, (msg, submission)));
        }
    }
    let ghost ga = *game;
    let ghost uia = *ui;
    proof {
        assert(puzzle_ticked(g0, ui0, *old(puzzle), token, answer_waited as int, ga, uia, *puzzle, submission));
    }
    let mut out_of_time: Option<PieceColor> = None;
    if let Some(mut c) = clock.take() {
        out_of_time = end_on_time_at(&mut game.logic, &mut c, ui, in_puzzle, turn_elapsed);
        *clock = Some(c);
    }
    let ghost la = game.logic;
    let ghost uib = *ui;
    proof {
        assert(clock_ticked(ga.logic, *old(clock), uia, in_puzzle, turn_elapsed as int, la, *clock, uib, out_of_time));
    }
    if in_puzzle {
        return TickOutcome { submission, out_of_time, opponent_moved: false };
    }
    let lichess: Option<bool> = match &game.logic.opponent {
        None => None,
        Some(o) => match &o.kind {
            Some(OpponentKind::Lichess { .. }) => Some(true),
            _ => Some(false),
        },
    };
    let opponent_turn: bool = match &game.logic.opponent {
        Some(o) => game.logic.player_turn == o.color,
        None => false,
    };
    let ghost l0 = game.logic;
    let mut moved = false;
    match lichess {
        None => {},
        Some(true) => {
            moved = match opponent_text {
                Some(t) => game.logic.execute_opponent_move(t.as_str()),
                None => false,
            };
            let ghost lm = game.logic;
            proof {
                assert(text_taken(l0, opponent_text, lm, moved));
                lemma_text_keeps_positions(l0, opponent_text, lm, moved);
            }
            if moved {
                game.logic.switch_player_turn();
            }
            check_and_show_game_end(&mut game.logic, ui, false);
        },
        Some(false) => {
            if opponent_turn {
                moved = match opponent_text {
                    Some(t) => game.logic.execute_opponent_move(t.as_str()),
                    None => false,
                };
                let ghost lm = game.logic;
                proof {
                    assert(text_taken(l0, opponent_text, lm, moved));
                    lemma_text_keeps_positions(l0, opponent_text, lm, moved);
                }
                if moved {
                    game.logic.switch_player_turn();
                    check_and_show_game_end(&mut game.logic, ui, false);
                }
            }
        },
    }
    TickOutcome { submission, out_of_time, opponent_moved: moved }
}

/// A tick now (see `ticked`): the time since the puzzle's answer was
/// scheduled and into the clock's turn are read from the clock, so what
/// holds is that the tick is `ticked` for some such times.
pub fn tick(
    game: &mut Game,
    clock: &mut Option<Clock>,
    ui: &mut UiState,
    puzzle: &mut Option<PuzzleGame>,
    token: Option<String>,
    opponent_text: Option<String>,
) -> (r: TickOutcome)
    requires
        old(game).logic.game_board.position_history@.len() > 0,
        *old(puzzle) matches Some(p) ==> p.pending_ok() && (p.opponent_move_pending matches Some((_, k))
            ==> p.solution_index + k <= usize::MAX),
        old(game).logic.opponent matches Some(o) ==> o.moves_received < usize::MAX,
    ensures
        exists|waited: int, elapsed: int|
            #[trigger] ticked(
                *old(game),
                *old(clock),
                *old(ui),
                *old(puzzle),
                token,
                waited,
                elapsed,
                opponent_text,
                *final(game),
                *final(clock),
                *final(ui),
                *final(puzzle),
                r,
            ),
{
    let waited: u128 = match puzzle {
        Some(pg) => match &pg.opponent_move_time {
            Some(start) => elapsed_nanos(start),
            None => 0,
        },
        None => 0,
    };
    let elapsed: u128 = match clock {
        Some(c) => c.elapsed_in_turn(),
        None => 0,
    };
    tick_at(game, clock, ui, puzzle, token, waited, elapsed, opponent_text)
}

} // verus!
