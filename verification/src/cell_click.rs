//! The select-or-move key on a game page, and the move the mouse makes with
//! it: the turn checked, the click handled on the board, a puzzle move
//! checked against the solution, and the end of the game looked for.
//!
//! A promotion being chosen is settled first: in a puzzle the move that led
//! to it is checked with the piece chosen, and it is promoted only when it
//! was right.

use vstd::prelude::*;
use crate::board::Coord;
use crate::game_logic::game::{
    Game, GameLogic, GameState, PendingActions, cell_click_done, click_handled, game_ready, history_cut,
    promotion_handled, state_after_update,
};
use crate::game_logic::game_board::{GameBoard, lemma_fens_len};
use crate::game_logic::puzzle::{MoveVerdict, PuzzleGame, PuzzleSubmission, move_checked};
use crate::game_logic::ui::UI;
use crate::mouse::{ClickPlan, cell_click_refused, pending_puzzle_move, selected_reaches};
use crate::pieces::PieceColor;
use crate::session::{check_and_show_game_end, puzzle_move_uci, puzzle_uci, screen_after_check, show_puzzle_verdict, verdict_shown};
use crate::state::UiState;

verus! {

/// What is left to do after the select-or-move key: the move to send and
/// the engine to ask (`PendingActions`), and a puzzle result to submit.
#[derive(Debug)]
pub struct CellClickOutcome {
    pub actions: PendingActions,
    pub submission: Option<PuzzleSubmission>,
}

/// The verdict when no puzzle move is checked: right, with nothing to show
/// or submit.
pub open spec fn no_verdict() -> MoveVerdict {
    MoveVerdict { correct: true, message: None, submission: None }
}

/// The check of a promotion being chosen (`g0`, `ui0`, `pz0` to `g1`,
/// `ui1`, `pz1`, with the verdict `v`): with the move that led to it
/// remembered (`pend0`) and a puzzle played, that move with the piece under
/// the promotion cursor is checked (`move_checked`) and the verdict shown;
/// otherwise nothing is checked.
pub open spec fn promotion_checked(
    g0: Game,
    ui0: UiState,
    pz0: Option<PuzzleGame>,
    pend0: Option<(u8, u8)>,
    token: Option<String>,
    g1: Game,
    ui1: UiState,
    pz1: Option<PuzzleGame>,
    v: MoveVerdict,
) -> bool {
    match (pend0, pz0) {
        (Some((from, to)), Some(p0)) => {
            &&& pz1 matches Some(p1) && move_checked(
                p0,
                g0,
                puzzle_uci(from, to, Some(g0.ui.promotion_cursor)),
                token,
                p1,
                g1,
                v,
            )
            &&& ui1 == verdict_shown(ui0, v.correct, v.message)
        },
        _ => g1 == g0 && ui1 == ui0 && pz1 == pz0 && v == no_verdict(),
    }
}

/// The promotion settled after its check (`g0` to `g1`, with what is left
/// `r`): after a right move, or none checked, the piece is promoted
/// (`promotion_handled`; the board may turn only out of a puzzle); after a
/// wrong one a promotion still pending is given up.
pub open spec fn promotion_settled(g0: Game, in_puzzle: bool, correct: bool, g1: Game, r: PendingActions) -> bool {
    if correct {
        promotion_handled(g0, g1, !in_puzzle, r)
    } else {
        &&& g1 == (Game {
            logic: GameLogic {
                game_state: if g0.logic.game_state == GameState::Promotion {
                    GameState::Playing
                } else {
                    g0.logic.game_state
                },
                ..g0.logic
            },
            ..g0
        })
        &&& r.opponent_message is None && !r.engine_to_move
    }
}

/// The check of a puzzle move made by a click (`g0`, `ui0`, `pz0` to `g1`,
/// `ui1`, `pz1`, with the verdict `v`): when the move about to be made was
/// read (`info`), a puzzle is played and no promotion is to be chosen, the
/// move is checked (`move_checked`) and the verdict shown; otherwise
/// nothing is checked.
pub open spec fn played_move_checked(
    g0: Game,
    ui0: UiState,
    pz0: Option<PuzzleGame>,
    info: Option<(u8, u8)>,
    token: Option<String>,
    g1: Game,
    ui1: UiState,
    pz1: Option<PuzzleGame>,
    v: MoveVerdict,
) -> bool {
    match (info, pz0) {
        (Some((from, to)), Some(p0)) => if g0.logic.game_state != GameState::Promotion {
            &&& pz1 matches Some(p1) && move_checked(p0, g0, puzzle_uci(from, to, None), token, p1, g1, v)
            &&& ui1 == verdict_shown(ui0, v.correct, v.message)
        } else {
            g1 == g0 && ui1 == ui0 && pz1 == pz0 && v == no_verdict()
        },
        _ => g1 == g0 && ui1 == ui0 && pz1 == pz0 && v == no_verdict(),
    }
}

/// The board kept unflipped in a puzzle.
pub open spec fn unflipped_in_puzzle(g: Game, in_puzzle: bool) -> Game {
    if in_puzzle {
        Game {
            logic: GameLogic { game_board: GameBoard { is_flipped: false, ..g.logic.game_board }, ..g.logic },
            ..g
        }
    } else {
        g
    }
}

/// The end of the game looked for (`check_and_show_game_end`): the state
/// brought up to date and the end screen shown as `screen_after_check`
/// says.
pub open spec fn end_checked(g0: Game, ui0: UiState, in_puzzle: bool, g1: Game, ui1: UiState) -> bool {
    let st = state_after_update(g0.logic.game_board, g0.logic.game_state);
    &&& g1 == (Game { logic: GameLogic { game_state: st, ..g0.logic }, ..g0 })
    &&& ui1 == screen_after_check(ui0, st, in_puzzle)
}

/// A record with a position, and a position before the last move when there
/// is one.
pub open spec fn positions_kept(b: GameBoard) -> bool {
    &&& b.position_history@.len() > 0
    &&& b.move_history@.len() > 0 ==> b.position_history@.len() >= 2
}

/// A click on the board, out of a promotion, keeps a position before the
/// last move.
proof fn lemma_click_keeps_positions(g0: Game, c: Option<PieceColor>, g1: Game, r: PendingActions)
    requires
        game_ready(g0),
        g0.logic.game_state != GameState::Promotion,
        cell_click_done(g0, c, g1, r),
    ensures
        positions_kept(g1.logic.game_board),
{
    if !crate::game_logic::game::click_refused(g0, c) {
        let (ga, gb) = choose|ga: Game, gb: Game|
            #[trigger] history_cut(g0, ga) && #[trigger] click_handled(ga, gb, r) && {
                &&& g1.logic.game_state == state_after_update(gb.logic.game_board, gb.logic.game_state)
                &&& g1.logic.game_board == gb.logic.game_board
                &&& g1.logic.bot == gb.logic.bot
                &&& g1.logic.opponent == gb.logic.opponent
                &&& g1.logic.player_turn == gb.logic.player_turn
                &&& g1.ui == gb.ui
            };
        lemma_fens_len(g0.logic.game_board.position_history@);
        lemma_fens_len(ga.logic.game_board.position_history@);
        lemma_fens_len(gb.logic.game_board.position_history@);
        assert(positions_kept(ga.logic.game_board));
    }
}

/// A promotion chosen (`g0`, `ui0`, `pz0`, `pend0` to `g1`, `ui1`, `pz1`,
/// `pend1`, with what is left `r`): the move that led to it is forgotten
/// once checked (`promotion_checked`) and the promotion settled
/// (`promotion_settled`).
pub open spec fn promotion_chosen(
    g0: Game,
    ui0: UiState,
    pz0: Option<PuzzleGame>,
    pend0: Option<(u8, u8)>,
    token: Option<String>,
    g1: Game,
    ui1: UiState,
    pz1: Option<PuzzleGame>,
    pend1: Option<(u8, u8)>,
    r: CellClickOutcome,
) -> bool {
    &&& pend1 is None
    &&& exists|gv: Game, v: MoveVerdict|
        #[trigger] promotion_checked(g0, ui0, pz0, pend0, token, gv, ui1, pz1, v)
            && #[trigger] promotion_settled(gv, pz0 is Some, v.correct, g1, r.actions)
            && r.submission == v.submission
}

/// The select-or-move key (`g0`, `ui0`, `pz0`, `pend0` to `g1`, `ui1`,
/// `pz1`, `pend1`, with what is left `r`; `my_color` the player's side,
/// `token` the Lichess token).
///
/// While a promotion is to be chosen: it is chosen (`promotion_chosen`)
/// and the end of the game looked for (`end_checked`). Otherwise: in a Lichess game, or a TCP game, the key
/// is refused when it is the other side's turn (`cell_click_refused`) and
/// nothing changes; else the move about to be made in a puzzle is read
/// (`pending_puzzle_move`), the click handled (`cell_click_done`); when it
/// leads to a promotion that move is remembered, else it is checked
/// (`played_move_checked`); in a puzzle the board is shown unflipped, and
/// the end of the game is looked for.
pub open spec fn cell_click_processed(
    g0: Game,
    ui0: UiState,
    pz0: Option<PuzzleGame>,
    pend0: Option<(u8, u8)>,
    my_color: Option<PieceColor>,
    token: Option<String>,
    g1: Game,
    ui1: UiState,
    pz1: Option<PuzzleGame>,
    pend1: Option<(u8, u8)>,
    r: CellClickOutcome,
) -> bool {
    if g0.logic.game_state == GameState::Promotion {
        exists|gp: Game, uip: UiState|
            #[trigger] promotion_chosen(g0, ui0, pz0, pend0, token, gp, uip, pz1, pend1, r)
                && #[trigger] end_checked(gp, uip, pz0 is Some, g1, ui1)
    } else if cell_click_refused(g0, ui0.current_page, my_color) {
        &&& g1 == g0 && ui1 == ui0 && pz1 == pz0 && pend1 == pend0
        &&& r.actions.opponent_message is None && !r.actions.engine_to_move && r.submission is None
    } else {
        let info = pending_puzzle_move(g0, pz0 is Some);
        exists|gc: Game, gv: Game, uiv: UiState, v: MoveVerdict|
            #[trigger] cell_click_done(g0, my_color, gc, r.actions)
                && #[trigger] played_move_checked(gc, ui0, pz0, info, token, gv, uiv, pz1, v)
                && pend1 == (if gc.logic.game_state == GameState::Promotion && info is Some {
                    info
                } else {
                    pend0
                })
                && r.submission == v.submission
                && end_checked(unflipped_in_puzzle(gv, pz0 is Some), uiv, pz0 is Some, g1, ui1)
    }
}

/// Chooses the promotion under the promotion cursor (see
/// `promotion_chosen`), in the game with a position before its last move.
pub fn choose_promotion(
    game: &mut Game,
    ui: &mut UiState,
    puzzle: &mut Option<PuzzleGame>,
    pending_promotion: &mut Option<(u8, u8)>,
    token: Option<String>,
) -> (r: CellClickOutcome)
    requires
        game_ready(*old(game)),
        *old(pending_promotion) matches Some((f, t)) ==> f < 64 && t < 64,
    ensures
        promotion_chosen(
            *old(game),
            *old(ui),
            *old(puzzle),
            *old(pending_promotion),
            token,
            *final(game),
            *final(ui),
            *final(puzzle),
            *final(pending_promotion),
            r,
        ),
        (*final(puzzle)) is Some == (*old(puzzle)) is Some,
        final(game).logic.game_board.position_history@.len() > 0,
{
    let in_puzzle = puzzle.is_some();
    let ghost g0 = *game;
    let ghost ui0 = *ui;
    let ghost pz0 = *puzzle;
    let mut verdict = MoveVerdict { correct: true, message: None, submission: None };
    if let Some((from, to)) = pending_promotion.take() {
        let move_uci = puzzle_move_uci(from, to, Some(game.ui.promotion_cursor));
        if let Some(mut pg) = puzzle.take() {
            verdict = pg.validate_move(move_uci.as_str(), game, token);
            *puzzle = Some(pg);
            let message = verdict.message.clone();
            show_puzzle_verdict(ui, verdict.correct, message);
        }
    }
    let ghost gv = *game;
    proof {
        assert(promotion_checked(g0, ui0, pz0, *old(pending_promotion), token, gv, *ui, *puzzle, verdict));
    }
    let actions = if verdict.correct {
        let should_flip = !in_puzzle;
        game.handle_promotion(should_flip)
    } else {
        if game.logic.game_state == GameState::Promotion {
            game.logic.game_state = GameState::Playing;
        }
        PendingActions { opponent_message: None, engine_to_move: false }
    };
    proof {
        assert(promotion_settled(gv, in_puzzle, verdict.correct, *game, actions));
    }
    CellClickOutcome { actions, submission: verdict.submission }
}

/// The select-or-move key (or a move made with the mouse) on a game page
/// (see `cell_click_processed`).
pub fn process_cell_click(
    game: &mut Game,
    ui: &mut UiState,
    puzzle: &mut Option<PuzzleGame>,
    pending_promotion: &mut Option<(u8, u8)>,
    my_color: Option<PieceColor>,
    token: Option<String>,
) -> (r: CellClickOutcome)
    requires
        game_ready(*old(game)),
        *old(pending_promotion) matches Some((f, t)) ==> f < 64 && t < 64,
        (*old(puzzle)) is Some && old(game).ui.selected_square is Some ==> old(game).ui.cursor_coordinates.row < 8
            && old(game).ui.cursor_coordinates.col < 8,
    ensures
        (*final(puzzle)) is Some == (*old(puzzle)) is Some,
        *final(pending_promotion) matches Some((f, t)) ==> f < 64 && t < 64,
        cell_click_processed(
            *old(game),
            *old(ui),
            *old(puzzle),
            *old(pending_promotion),
            my_color,
            token,
            *final(game),
            *final(ui),
            *final(puzzle),
            *final(pending_promotion),
            r,
        ),
{
    let in_puzzle = puzzle.is_some();
    if game.logic.game_state == GameState::Promotion {
        let outcome = choose_promotion(game, ui, puzzle, pending_promotion, token);
        let ghost gp = *game;
        let ghost uip = *ui;
        check_and_show_game_end(&mut game.logic, ui, in_puzzle);
        proof {
            assert(end_checked(gp, uip, in_puzzle, *game, *ui));
        }
        outcome
    } else {
        if game.cell_click_blocked(ui.current_page, my_color) {
            return CellClickOutcome {
                actions: PendingActions { opponent_message: None, engine_to_move: false },
                submission: None,
            };
        }
        let info = game.puzzle_move_info(in_puzzle);
        let ghost g0 = *game;
        let actions = game.handle_cell_click(my_color);
        let ghost gc = *game;
        let ghost ui0 = *ui;
        let ghost pz0 = *puzzle;
        proof {
            lemma_click_keeps_positions(g0, my_color, gc, actions);
        }
        let mut verdict = MoveVerdict { correct: true, message: None, submission: None };
        if game.logic.game_state == GameState::Promotion {
            if info.is_some() {
                *pending_promotion = info;
            }
        } else if let Some((from, to)) = info {
            let move_uci = puzzle_move_uci(from, to, None);
            if let Some(mut pg) = puzzle.take() {
                verdict = pg.validate_move(move_uci.as_str(), game, token);
                *puzzle = Some(pg);
                let message = verdict.message.clone();
                show_puzzle_verdict(ui, verdict.correct, message);
            }
        }
        let ghost gv = *game;
        let ghost uiv = *ui;
        proof {
            assert(played_move_checked(gc, ui0, pz0, info, token, gv, uiv, *puzzle, verdict));
        }
        if in_puzzle {
            game.logic.game_board.is_flipped = false;
        }
        check_and_show_game_end(&mut game.logic, ui, in_puzzle);
        CellClickOutcome { actions, submission: verdict.submission }
    }
}

/// A move made with the mouse to `target`, a square as shown, with the
/// cursor then on `coords` (`g0`, `ui0`, `pz0`, `pend0` to `g1`, `ui1`,
/// `pz1`, `pend1`, with what is left `r`): made only when the selected
/// piece may go there (`selected_reaches`), by moving the cursor to
/// `coords` and processing the select-or-move key
/// (`cell_click_processed`); otherwise nothing changes.
pub open spec fn mouse_moved(
    g0: Game,
    ui0: UiState,
    pz0: Option<PuzzleGame>,
    pend0: Option<(u8, u8)>,
    my_color: Option<PieceColor>,
    token: Option<String>,
    target: u8,
    coords: Coord,
    g1: Game,
    ui1: UiState,
    pz1: Option<PuzzleGame>,
    pend1: Option<(u8, u8)>,
    r: Option<CellClickOutcome>,
) -> bool {
    if selected_reaches(g0, target) {
        r matches Some(o) && cell_click_processed(
            Game { ui: UI { cursor_coordinates: coords, ..g0.ui }, ..g0 },
            ui0,
            pz0,
            pend0,
            my_color,
            token,
            g1,
            ui1,
            pz1,
            pend1,
            o,
        )
    } else {
        r is None && g1 == g0 && ui1 == ui0 && pz1 == pz0 && pend1 == pend0
    }
}

/// A move made with the mouse (see `mouse_moved`). In a puzzle the cursor
/// goes on the board.
pub fn try_mouse_move(
    game: &mut Game,
    ui: &mut UiState,
    puzzle: &mut Option<PuzzleGame>,
    pending_promotion: &mut Option<(u8, u8)>,
    my_color: Option<PieceColor>,
    token: Option<String>,
    target: u8,
    coords: Coord,
) -> (r: Option<CellClickOutcome>)
    requires
        game_ready(*old(game)),
        target < 64,
        *old(pending_promotion) matches Some((f, t)) ==> f < 64 && t < 64,
        (*old(puzzle)) is Some ==> coords.row < 8 && coords.col < 8,
    ensures
        mouse_moved(
            *old(game),
            *old(ui),
            *old(puzzle),
            *old(pending_promotion),
            my_color,
            token,
            target,
            coords,
            *final(game),
            *final(ui),
            *final(puzzle),
            *final(pending_promotion),
            r,
        ),
        (*final(puzzle)) is Some == (*old(puzzle)) is Some,
        *final(pending_promotion) matches Some((f, t)) ==> f < 64 && t < 64,
{
    if !game.can_move_selected_to(target) {
        return None;
    }
    game.ui.cursor_coordinates = coords;
    Some(process_cell_click(game, ui, puzzle, pending_promotion, my_color, token))
}

/// The coordinate a square is shown at.
pub open spec fn coord_of(sq: u8) -> Coord {
    Coord { row: (7 - sq / 8) as u8, col: (sq % 8) as u8 }
}

/// Whether the squares of a plan are on the board.
pub open spec fn plan_on_board(plan: ClickPlan) -> bool {
    match plan {
        ClickPlan::Move { to } => to < 64,
        ClickPlan::MoveOrSelect { castle_to, to } => to < 64 && (castle_to matches Some(c) ==> c < 64),
        _ => true,
    }
}

/// What is left of a click on a game page carried out (`g0`, `ui0`, `pz0`,
/// `pend0` to `g1`, `ui1`, `pz1`, `pend1`, with what is left `r`): a
/// promotion is chosen (`promotion_chosen`); a move is tried
/// (`mouse_moved`); with a piece of the player's clicked, the castling
/// first, when there is one the king can make, then the move, and when the
/// piece selected can go to neither, the piece clicked is selected.
pub open spec fn click_carried_out(
    plan: ClickPlan,
    g0: Game,
    ui0: UiState,
    pz0: Option<PuzzleGame>,
    pend0: Option<(u8, u8)>,
    my_color: Option<PieceColor>,
    token: Option<String>,
    g1: Game,
    ui1: UiState,
    pz1: Option<PuzzleGame>,
    pend1: Option<(u8, u8)>,
    r: Option<CellClickOutcome>,
) -> bool {
    match plan {
        ClickPlan::Nothing => r is None && g1 == g0 && ui1 == ui0 && pz1 == pz0 && pend1 == pend0,
        ClickPlan::Promote(_) => r matches Some(o) && promotion_chosen(g0, ui0, pz0, pend0, token, g1, ui1, pz1, pend1, o),
        ClickPlan::Move { to } => mouse_moved(g0, ui0, pz0, pend0, my_color, token, to, coord_of(to), g1, ui1, pz1, pend1, r),
        ClickPlan::MoveOrSelect { castle_to, to } => if castle_to is Some && selected_reaches(g0, castle_to->0) {
            let c = castle_to->0;
            mouse_moved(g0, ui0, pz0, pend0, my_color, token, c, coord_of(c), g1, ui1, pz1, pend1, r)
        } else if selected_reaches(g0, to) {
            mouse_moved(g0, ui0, pz0, pend0, my_color, token, to, coord_of(to), g1, ui1, pz1, pend1, r)
        } else {
            &&& r is None
            &&& g1 == (Game { ui: UI { selected_square: Some(to), ..g0.ui }, ..g0 })
            &&& ui1 == ui0 && pz1 == pz0 && pend1 == pend0
        },
    }
}

/// Carries out what a click on a game page leaves to do (see
/// `click_carried_out`).
pub fn carry_out_click(
    plan: ClickPlan,
    game: &mut Game,
    ui: &mut UiState,
    puzzle: &mut Option<PuzzleGame>,
    pending_promotion: &mut Option<(u8, u8)>,
    my_color: Option<PieceColor>,
    token: Option<String>,
) -> (r: Option<CellClickOutcome>)
    requires
        game_ready(*old(game)),
        plan_on_board(plan),
        *old(pending_promotion) matches Some((f, t)) ==> f < 64 && t < 64,
    ensures
        click_carried_out(
            plan,
            *old(game),
            *old(ui),
            *old(puzzle),
            *old(pending_promotion),
            my_color,
            token,
            *final(game),
            *final(ui),
            *final(puzzle),
            *final(pending_promotion),
            r,
        ),
{
    match plan {
        ClickPlan::Nothing => None,
        ClickPlan::Promote(_) => Some(choose_promotion(game, ui, puzzle, pending_promotion, token)),
        ClickPlan::Move { to } => {
            let coords = Coord::from_square(to);
            try_mouse_move(game, ui, puzzle, pending_promotion, my_color, token, to, coords)
        },
        ClickPlan::MoveOrSelect { castle_to, to } => {
            if let Some(c) = castle_to {
                if game.can_move_selected_to(c) {
                    let coords = Coord::from_square(c);
                    return try_mouse_move(game, ui, puzzle, pending_promotion, my_color, token, c, coords);
                }
            }
            if game.can_move_selected_to(to) {
                let coords = Coord::from_square(to);
                return try_mouse_move(game, ui, puzzle, pending_promotion, my_color, token, to, coords);
            }
            game.ui.selected_square = Some(to);
            None
        },
    }
}

} // verus!
