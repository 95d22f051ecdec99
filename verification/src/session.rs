//! The game around the board: its end screen, the end on time, the moves
//! the engine finds, and what a restart keeps.

use vstd::prelude::*;
use crate::chess::{
    START_FEN, ChessMove, Piece, move_capture, move_from, move_ok, move_promotion, move_role, move_to, piece_at, piece_on,
    play, position_after,
};
use crate::constants::{Pages, Popups, TIME_CONTROL_CUSTOM_INDEX};
use crate::game_logic::bot::Bot;
use crate::game_logic::clock::{Clock, remaining};
use crate::game_logic::game::{Game, GameLogic, GameState, state_after_update};
use crate::game_logic::opponent::opponent_copied;
use crate::game_logic::puzzle::PuzzleGame;
use crate::game_logic::game_board::fens;
use crate::game_logic::opponent::{square_name, square_to_string};
use crate::game_logic::ui::{UI, shown_fen};
use crate::pieces::PieceColor;
use crate::state::{BotState, GameModeState, MultiplayerState, UiState, coin_toss, time_control_seconds};
use crate::text::string_of;

verus! {

/// The end screen: the puzzle's while a puzzle is played.
pub open spec fn end_screen_of(in_puzzle: bool) -> Popups {
    if in_puzzle { Popups::PuzzleEndScreen } else { Popups::EndScreen }
}

/// Whether the game is over.
pub open spec fn is_over(st: GameState) -> bool {
    st == GameState::Checkmate || st == GameState::Draw
}

/// Shows the end screen (see `end_screen_of`).
pub fn show_end_screen(ui: &mut UiState, in_puzzle: bool)
    ensures
        *final(ui) == (UiState { current_popup: Some(end_screen_of(in_puzzle)), ..*old(ui) }),
{
    ui.current_popup = Some(if in_puzzle { Popups::PuzzleEndScreen } else { Popups::EndScreen });
}

/// The state of the game is brought up to date (`state_after_update`), and
/// when the game has just ended the end screen is shown. The PGN viewer
/// keeps its own state: there nothing changes.
pub fn check_game_end_status(logic: &mut GameLogic, ui: &mut UiState, in_puzzle: bool)
    requires
        old(logic).game_board.position_history@.len() > 0,
    ensures
        old(ui).current_page == Pages::PgnViewer ==> *final(logic) == *old(logic) && *final(ui) == *old(ui),
        old(ui).current_page != Pages::PgnViewer ==> {
            let st = state_after_update(old(logic).game_board, old(logic).game_state);
            &&& *final(logic) == (GameLogic { game_state: st, ..*old(logic) })
            &&& *final(ui) == (if st != old(logic).game_state && is_over(st) {
                UiState { current_popup: Some(end_screen_of(in_puzzle)), ..*old(ui) }
            } else {
                *old(ui)
            })
        },
{
    if ui.current_page == Pages::PgnViewer {
        return;
    }
    let previous = logic.game_state;
    logic.update_game_state();
    let now = logic.game_state;
    if previous != now && (now == GameState::Checkmate || now == GameState::Draw) {
        show_end_screen(ui, in_puzzle);
    }
}

/// The screen once the game is found to be in state `st`: when it is
/// over, the end screen is shown unless it is up already or was dismissed;
/// when it is not, the end screen counts as not dismissed.
pub open spec fn screen_after_check(ui: UiState, st: GameState, in_puzzle: bool) -> UiState {
    if !is_over(st) {
        UiState { end_screen_dismissed: false, ..ui }
    } else if ui.current_popup != Some(Popups::EndScreen) && ui.current_popup != Some(Popups::PuzzleEndScreen)
        && !ui.end_screen_dismissed {
        UiState { current_popup: Some(end_screen_of(in_puzzle)), ..ui }
    } else {
        ui
    }
}

/// After a move: the state of the game is brought up to date; when the
/// game is over the end screen is shown, unless it is up already or was
/// dismissed; when it is not, the end screen counts as not dismissed.
pub fn check_and_show_game_end(logic: &mut GameLogic, ui: &mut UiState, in_puzzle: bool)
    requires
        old(logic).game_board.position_history@.len() > 0,
    ensures
        ({
            let st = state_after_update(old(logic).game_board, old(logic).game_state);
            &&& *final(logic) == (GameLogic { game_state: st, ..*old(logic) })
            &&& *final(ui) == screen_after_check(*old(ui), st, in_puzzle)
        }),
{
    logic.update_game_state();
    if logic.game_state == GameState::Checkmate || logic.game_state == GameState::Draw {
        if ui.current_popup != Some(Popups::EndScreen) && ui.current_popup != Some(Popups::PuzzleEndScreen)
            && !ui.end_screen_dismissed {
            show_end_screen(ui, in_puzzle);
        }
    } else {
        ui.end_screen_dismissed = false;
    }
}

/// The side out of time `elapsed` nanoseconds into the turn, White first.
pub open spec fn out_of_time(clock: Clock, elapsed: int) -> Option<PieceColor> {
    if clock.time_at(PieceColor::White, elapsed) == 0 {
        Some(PieceColor::White)
    } else if clock.time_at(PieceColor::Black, elapsed) == 0 {
        Some(PieceColor::Black)
    } else {
        None
    }
}

/// The other side.
pub open spec fn other_side(c: PieceColor) -> PieceColor {
    match c {
        PieceColor::White => PieceColor::Black,
        PieceColor::Black => PieceColor::White,
    }
}

/// A look at the clock `elapsed` nanoseconds into the turn (`l0`, `c0`,
/// `ui0` to `l1`, `c1`, `ui1`, with the side out of time `loser`): when a
/// side is out of time (`out_of_time`), the clock stops if it runs, the game
/// is won by the other side (the state set to checkmate, the turn to the
/// winner and the game marked as ended by time, then brought up to date) and the end screen shown as after a
/// move (`screen_after_check`); when there is none nothing changes.
pub open spec fn time_checked(
    l0: GameLogic,
    c0: Clock,
    ui0: UiState,
    in_puzzle: bool,
    elapsed: int,
    l1: GameLogic,
    c1: Clock,
    ui1: UiState,
    loser: Option<PieceColor>,
) -> bool {
    &&& loser == out_of_time(c0, elapsed)
    &&& match loser {
        None => l1 == l0 && c1 == c0 && ui1 == ui0,
        Some(c) => {
            let st = state_after_update(l0.game_board, GameState::Checkmate);
            &&& l1 == (GameLogic { game_state: st, player_turn: other_side(c), game_ended_by_time: true, ..l0 })
            &&& ui1 == screen_after_check(ui0, st, in_puzzle)
            &&& !c0.running() ==> c1 == c0
            &&& c0.running() ==> {
                &&& !c1.running()
                &&& c1.active() is None
                &&& forall|k: PieceColor| #[trigger] c1.base_time(k) == (if c0.has_start() && c0.active() == Some(k) {
                    remaining(c0.base_time(k), elapsed)
                } else {
                    c0.base_time(k)
                })
            }
        },
    }
}

/// A tick of the clock, `elapsed` nanoseconds into the turn (see
/// `time_checked`). Returns the side out of time.
pub fn end_on_time_at(
    logic: &mut GameLogic,
    clock: &mut Clock,
    ui: &mut UiState,
    in_puzzle: bool,
    elapsed: u128,
) -> (loser: Option<PieceColor>)
    requires
        old(logic).game_board.position_history@.len() > 0,
    ensures
        time_checked(*old(logic), *old(clock), *old(ui), in_puzzle, elapsed as int, *final(logic), *final(clock), *final(ui), loser),
{
    let loser = clock.get_time_up_color_at(elapsed);
    if let Some(c) = loser {
        if clock.is_running() {
            clock.stop_at(elapsed);
        }
        logic.game_state = GameState::Checkmate;
        logic.player_turn = c.opposite();
        logic.game_ended_by_time = true;
        check_and_show_game_end(logic, ui, in_puzzle);
    }
    loser
}

/// The piece an engine move takes, read in `pos` before it: the one on the
/// target square of a normal move; for en passant, the one beside the
/// target, on the rank the pawn leaves; none for castling or a drop.
pub open spec fn engine_capture(pos: Seq<char>, m: ChessMove) -> Option<Piece> {
    match m {
        ChessMove::Normal { to, .. } => piece_on(pos, to),
        ChessMove::EnPassant { from, to } => piece_on(pos, ((from / 8) * 8 + to % 8) as u8),
        _ => None,
    }
}

/// How an engine move from `from` is written in the move history: as a
/// normal move with its role, capture, target and promotion.
pub open spec fn engine_record(m: ChessMove, from: u8) -> ChessMove {
    ChessMove::Normal {
        role: move_role(m),
        from,
        capture: move_capture(m),
        to: move_to(m),
        promotion: move_promotion(m),
    }
}

/// The pieces taken, with `p` added when there is one.
pub open spec fn taken_with(taken: Seq<Piece>, p: Option<Piece>) -> Seq<Piece> {
    match p {
        Some(x) => taken.push(x),
        None => taken,
    }
}

/// An engine move is written in the history as it is: the same origin,
/// target, kind of piece, capture and promotion (a promotion the engine
/// chose stays chosen).
pub proof fn lemma_engine_record_keeps_the_move(m: ChessMove, f: u8)
    requires
        move_from(m) == Some(f),
    ensures
        move_from(engine_record(m, f)) == move_from(m),
        move_to(engine_record(m, f)) == move_to(m),
        move_role(engine_record(m, f)) == move_role(m),
        move_capture(engine_record(m, f)) == move_capture(m),
        move_promotion(engine_record(m, f)) == move_promotion(m),
{
}

impl GameLogic {
    /// Plays a move the engine found, in the position shown
    /// (`shown_fen`); with no such position nothing changes. The piece it
    /// takes is added to the pieces taken (`engine_capture`); a move from a
    /// square is written in the move history (`engine_record`) and, when it
    /// is legal there, the position it leads to is recorded, the view goes
    /// back to the latest position and the turn passes. A drop is only
    /// looked at for its capture, which it has none of.
    pub fn apply_bot_move(&mut self, bot_move: ChessMove)
        requires
            move_ok(bot_move),
        ensures
            shown_fen(old(self).game_board) is Some && move_from(bot_move) is Some ==> {
                let ms = final(self).game_board.move_history@;
                &&& ms.len() == old(self).game_board.move_history@.len() + 1
                &&& move_from(ms.last()) == move_from(bot_move)
                &&& move_to(ms.last()) == move_to(bot_move)
                &&& move_promotion(ms.last()) == move_promotion(bot_move)
                &&& move_role(ms.last()) == move_role(bot_move)
                &&& move_capture(ms.last()) == move_capture(bot_move)
            },
            final(self).bot == old(self).bot,
            final(self).opponent == old(self).opponent,
            final(self).game_state == old(self).game_state,
            final(self).game_board.consecutive_non_pawn_or_capture
                == old(self).game_board.consecutive_non_pawn_or_capture,
            final(self).game_board.is_flipped == old(self).game_board.is_flipped,
            match shown_fen(old(self).game_board) {
                None => *final(self) == *old(self),
                Some(pos) => {
                    let b0 = old(self).game_board;
                    let b1 = final(self).game_board;
                    &&& b1.taken_pieces@ == taken_with(b0.taken_pieces@, engine_capture(pos, bot_move))
                    &&& match move_from(bot_move) {
                        None => {
                            &&& b1.move_history@ == b0.move_history@
                            &&& b1.position_history@ == b0.position_history@
                            &&& b1.history_position_index == b0.history_position_index
                            &&& b1.original_flip_state == b0.original_flip_state
                            &&& final(self).player_turn == old(self).player_turn
                        },
                        Some(f) => {
                            &&& b1.move_history@ == b0.move_history@.push(engine_record(bot_move, f))
                            &&& match position_after(pos, bot_move) {
                                None => {
                                    &&& b1.position_history@ == b0.position_history@
                                    &&& b1.history_position_index == b0.history_position_index
                                    &&& b1.original_flip_state == b0.original_flip_state
                                    &&& final(self).player_turn == old(self).player_turn
                                },
                                Some(next) => {
                                    &&& b1.fens() == b0.fens().push(next)
                                    &&& b1.history_position_index is None
                                    &&& b1.original_flip_state is None
                                    &&& final(self).player_turn == other_side(old(self).player_turn)
                                },
                            }
                        },
                    }
                },
            },
    {
        let current: String = match self.game_board.current_position() {
            Some(p) => p.clone(),
            None => return,
        };
        match bot_move {
            ChessMove::Normal { to, .. } => {
                if let Some(p) = piece_at(current.as_str(), to) {
                    self.game_board.taken_pieces.push(p);
                }
            },
            ChessMove::EnPassant { from, to } => {
                if let Some(p) = piece_at(current.as_str(), (from / 8) * 8 + to % 8) {
                    self.game_board.taken_pieces.push(p);
                }
            },
            _ => {},
        }
        let from = match bot_move.from() {
            Some(f) => f,
            None => return,
        };
        self.game_board.move_history.push(
            ChessMove::Normal {
                role: bot_move.role(),
                from,
                capture: bot_move.capture(),
                to: bot_move.to(),
                promotion: bot_move.promotion(),
            },
        );
        let new_position = match play(current.as_str(), &bot_move) {
            Some(p) => p,
            None => return,
        };
        let ghost before = self.game_board.position_history@;
        self.game_board.position_history.push(new_position);
        self.game_board.history_position_index = None;
        self.game_board.original_flip_state = None;
        proof {
            assert(self.game_board.fens() =~= fens(before).push(new_position@));
        }
        self.switch_player_turn();
    }
}

/// The promotion letter picked with the promotion cursor: queen, rook,
/// bishop, knight, and queen for any other cursor.
pub open spec fn cursor_promotion_letter(cursor: i8) -> char {
    if cursor == 1 { 'r' } else if cursor == 2 { 'b' } else if cursor == 3 { 'n' } else { 'q' }
}

/// The UCI text of a puzzle move from `from` to `to`, with the promotion
/// picked by the promotion cursor when there is one.
pub open spec fn puzzle_uci(from: u8, to: u8, promotion_cursor: Option<i8>) -> Seq<char> {
    match promotion_cursor {
        Some(c) => square_name(from) + square_name(to) + seq![cursor_promotion_letter(c)],
        None => square_name(from) + square_name(to),
    }
}

/// The UCI text of a puzzle move (see `puzzle_uci`), to check it against
/// the solution.
pub fn puzzle_move_uci(from: u8, to: u8, promotion_cursor: Option<i8>) -> (r: String)
    requires
        from < 64,
        to < 64,
    ensures
        r@ == puzzle_uci(from, to, promotion_cursor),
{
    let mut text = square_to_string(from);
    let target = square_to_string(to);
    let mut i: usize = 0;
    while i < target.len()
        invariant
            i <= target@.len(),
            target@ == square_name(to),
            text@ == square_name(from) + target@.subrange(0, i as int),
        decreases target@.len() - i,
    {
        text.push(target[i]);
        proof { assert(target@.subrange(0, i as int + 1) =~= target@.subrange(0, i as int).push(target@[i as int])); }
        i += 1;
    }
    proof { assert(target@.subrange(0, target@.len() as int) =~= target@); }
    if let Some(c) = promotion_cursor {
        let letter = if c == 1 { 'r' } else if c == 2 { 'b' } else if c == 3 { 'n' } else { 'q' };
        text.push(letter);
    }
    string_of(&text)
}

/// What the player is shown after a puzzle move: its message, if any, in
/// the puzzle's end screen when the move was right, in an error box when
/// it was wrong.
pub open spec fn verdict_shown(ui: UiState, correct: bool, message: Option<String>) -> UiState {
    match message {
        Some(m) => UiState {
            current_popup: Some(if correct { Popups::PuzzleEndScreen } else { Popups::Error }),
            popup_message: Some(m),
            ..ui
        },
        None => ui,
    }
}

/// Shows the verdict on a puzzle move (see `verdict_shown`).
pub fn show_puzzle_verdict(ui: &mut UiState, correct: bool, message: Option<String>)
    ensures
        *final(ui) == verdict_shown(*old(ui), correct, message),
{
    if let Some(msg) = message {
        if correct {
            ui.show_message_popup(msg, Popups::PuzzleEndScreen);
        } else {
            ui.show_message_popup(msg, Popups::Error);
        }
    }
}

/// Going back home from a game: a new game (its view fresh, the display
/// mode kept, not ended by time), no engine, no opponent and no puzzle;
/// the color choice forgotten and
/// the time control back to Rapid with ten custom minutes; the home page
/// with the cursor on its first entry, no popup, the end screen not
/// dismissed. When an opponent was connected, the host choices are
/// forgotten too. Returns whether one was (it is to be told the game
/// ended).
pub fn reset_home(
    game: &mut Game,
    ui: &mut UiState,
    form: &mut GameModeState,
    multiplayer: &mut MultiplayerState,
    puzzle: &mut Option<PuzzleGame>,
) -> (had_opponent: bool)
    ensures
        had_opponent == old(game).logic.opponent is Some,
        *final(puzzle) is None,
        !final(game).logic.game_ended_by_time,
        final(game).ui.is_fresh(),
        final(game).ui.display_mode == old(game).ui.display_mode,
        final(game).logic.game_board.move_history@.len() == 0,
        final(game).logic.game_board.fens() == seq![START_FEN@],
        final(game).logic.game_board.taken_pieces@.len() == 0,
        final(game).logic.game_board.consecutive_non_pawn_or_capture == 0,
        !final(game).logic.game_board.is_flipped,
        final(game).logic.game_board.history_position_index is None,
        final(game).logic.game_board.original_flip_state is None,
        final(game).logic.bot is None,
        final(game).logic.opponent is None,
        final(game).logic.player_turn == PieceColor::White,
        final(game).logic.game_state == GameState::Playing,
        *final(ui) == (UiState {
            current_page: Pages::Home,
            menu_cursor: 0,
            current_popup: None,
            popup_message: None,
            end_screen_dismissed: false,
            ..*old(ui)
        }),
        *final(form) == (GameModeState {
            selected_color: None,
            is_random_color: false,
            clock_cursor: 3,
            custom_time_minutes: 10,
            ..*old(form)
        }),
        had_opponent ==> final(multiplayer).hosting is None && final(multiplayer).host_ip is None
            && final(multiplayer).game_start_rx == old(multiplayer).game_start_rx,
        !had_opponent ==> *final(multiplayer) == *old(multiplayer),
{
    let display_mode = game.ui.display_mode;
    form.selected_color = None;
    form.is_random_color = false;
    let had_opponent = game.logic.opponent.is_some();
    if had_opponent {
        multiplayer.hosting = None;
        multiplayer.host_ip = None;
    }
    *puzzle = None;
    game.logic = GameLogic::default();
    game.ui = UI::default();
    game.ui.display_mode = display_mode;
    form.clock_cursor = 3;
    form.custom_time_minutes = 10;
    ui.end_screen_dismissed = false;
    ui.current_page = Pages::Home;
    ui.menu_cursor = 0;
    ui.current_popup = None;
    ui.popup_message = None;
    had_opponent
}

/// Setting up a game against the engine: the engine (with the engine path,
/// or none given, and the depth and difficulty chosen) plays White when the
/// player chose Black, else Black; the game gets a clock when the time
/// control has one; with Black chosen the board turns round for the player.
/// Returns whether the engine is to move now: with Black chosen and the
/// other side to play.
pub fn bot_setup(
    logic: &mut GameLogic,
    clock: &mut Option<Clock>,
    form: &GameModeState,
    bot_state: &BotState,
) -> (bot_to_move: bool)
    requires
        form.clock_cursor == TIME_CONTROL_CUSTOM_INDEX ==> form.custom_time_minutes * 60 <= u32::MAX,
    ensures
        final(logic).bot matches Some(b) && {
            &&& b.engine_path@ == (match bot_state.chess_engine_path {
                Some(p) => p@,
                None => Seq::empty(),
            })
            &&& !b.bot_will_move
            &&& b.is_bot_starting == (form.selected_color == Some(PieceColor::Black))
            &&& b.depth == bot_state.bot_depth
            &&& b.difficulty == bot_state.bot_difficulty
        },
        match time_control_seconds(form.clock_cursor, form.custom_time_minutes) {
            Some(s) => *final(clock) matches Some(c) && c.base_time(PieceColor::White) == s * 1_000_000_000
                && c.base_time(PieceColor::Black) == s * 1_000_000_000 && !c.running() && c.active() is None,
            None => *final(clock) == *old(clock),
        },
        final(logic).game_board.is_flipped == (old(logic).game_board.is_flipped != (form.selected_color
            == Some(PieceColor::Black))),
        final(logic).game_board.position_history@ == old(logic).game_board.position_history@,
        final(logic).game_board.move_history@ == old(logic).game_board.move_history@,
        final(logic).game_board.taken_pieces@ == old(logic).game_board.taken_pieces@,
        final(logic).game_board.history_position_index == old(logic).game_board.history_position_index,
        final(logic).opponent == old(logic).opponent,
        final(logic).player_turn == old(logic).player_turn,
        final(logic).game_state == old(logic).game_state,
        bot_to_move == (form.selected_color == Some(PieceColor::Black) && old(logic).player_turn
            != PieceColor::Black),
{
    let black = match form.selected_color {
        Some(PieceColor::Black) => true,
        _ => false,
    };
    let bot = match &bot_state.chess_engine_path {
        Some(p) => Bot::new(p.as_str(), black, bot_state.bot_depth, bot_state.bot_difficulty),
        None => Bot::new("", black, bot_state.bot_depth, bot_state.bot_difficulty),
    };
    proof { reveal_strlit(""); }
    logic.bot = Some(bot);
    if let Some(seconds) = form.get_time_control_seconds() {
        *clock = Some(Clock::new(seconds));
    }
    if black {
        logic.game_board.flip_the_board();
        logic.player_turn != PieceColor::Black
    } else {
        false
    }
}

/// What a restart keeps of the game before it.
#[derive(Clone, Copy, Debug, PartialEq, Eq, Structural)]
pub struct RestartPlan {
    /// The seconds per side of the new clock, if the game gets one.
    pub clock_seconds: Option<u32>,
    /// Whether the engine plays White and moves first (the board is then
    /// turned round for the player).
    pub bot_starts: bool,
}

/// The color chosen after a restart: a new coin toss (`coin_white`) in a
/// game against the engine with the Random color chosen.
pub open spec fn color_after_restart(
    form: GameModeState,
    has_bot: bool,
    has_opponent: bool,
    coin_white: bool,
) -> Option<PieceColor> {
    if has_bot && !has_opponent && form.is_random_color {
        Some(if coin_white { PieceColor::White } else { PieceColor::Black })
    } else {
        form.selected_color
    }
}

/// A restart on `page`: the screen closes its popup and forgets a dismissed
/// end screen; the color is tossed again in an engine game with the Random
/// color (`color_after_restart`); a local game on the local page, or a game
/// against the engine alone, gets a new clock of the time control chosen;
/// the engine starts when the player has Black.
pub fn restart_plan_with(
    page: Pages,
    has_bot: bool,
    has_opponent: bool,
    ui: &mut UiState,
    form: &mut GameModeState,
    coin_white: bool,
) -> (r: RestartPlan)
    requires
        old(form).clock_cursor == TIME_CONTROL_CUSTOM_INDEX ==> old(form).custom_time_minutes * 60 <= u32::MAX,
    ensures
        *final(ui) == (UiState { current_popup: None, popup_message: None, end_screen_dismissed: false, ..*old(ui) }),
        *final(form) == (GameModeState {
            selected_color: color_after_restart(*old(form), has_bot, has_opponent, coin_white),
            ..*old(form)
        }),
        r.clock_seconds == (if (page == Pages::Solo && !has_bot && !has_opponent) || (has_bot && !has_opponent) {
            match time_control_seconds(old(form).clock_cursor, old(form).custom_time_minutes) {
                Some(s) => Some(s as u32),
                None => None,
            }
        } else {
            None
        }),
        r.bot_starts == (has_bot && final(form).selected_color == Some(PieceColor::Black)),
{
    ui.end_screen_dismissed = false;
    let is_local_game = page == Pages::Solo && !has_bot && !has_opponent;
    let is_bot_game = has_bot && !has_opponent;
    if is_bot_game && form.is_random_color {
        form.selected_color = Some(if coin_white { PieceColor::White } else { PieceColor::Black });
    }
    ui.current_popup = None;
    ui.popup_message = None;
    let clock_seconds = if is_local_game || is_bot_game {
        form.get_time_control_seconds()
    } else {
        None
    };
    let bot_starts = has_bot && match form.selected_color {
        Some(PieceColor::Black) => true,
        _ => false,
    };
    RestartPlan { clock_seconds, bot_starts }
}

/// A restart, the coin being tossed (see `restart_plan_with`): in an
/// engine game with the Random color, either color may come out.
pub fn restart_plan(
    page: Pages,
    has_bot: bool,
    has_opponent: bool,
    ui: &mut UiState,
    form: &mut GameModeState,
) -> (r: RestartPlan)
    requires
        old(form).clock_cursor == TIME_CONTROL_CUSTOM_INDEX ==> old(form).custom_time_minutes * 60 <= u32::MAX,
    ensures
        *final(form) == (GameModeState { selected_color: final(form).selected_color, ..*old(form) }),
        has_bot && !has_opponent && old(form).is_random_color ==> final(form).selected_color is Some,
        !(has_bot && !has_opponent && old(form).is_random_color) ==> final(form).selected_color
            == old(form).selected_color,
        r.bot_starts == (has_bot && final(form).selected_color == Some(PieceColor::Black)),
        *final(ui) == (UiState { current_popup: None, popup_message: None, end_screen_dismissed: false, ..*old(ui) }),
        r.clock_seconds == (if (page == Pages::Solo && !has_bot && !has_opponent) || (has_bot && !has_opponent) {
            match time_control_seconds(old(form).clock_cursor, old(form).custom_time_minutes) {
                Some(s) => Some(s as u32),
                None => None,
            }
        } else {
            None
        }),
{
    let coin_white = coin_toss();
    restart_plan_with(page, has_bot, has_opponent, ui, form, coin_white)
}

/// The game after a restart (`g0` to `g1`, with the clock `c1`, following
/// `plan`): a new game from the starting position (its view fresh, the
/// display mode kept, White to play, not ended by time), turned round when
/// the engine starts; the same engine settings, the engine starting as the
/// plan says; the opponent copied (`opponent_copied`); a new stopped clock
/// of the plan's seconds, or none.
pub open spec fn game_restarted(g0: Game, g1: Game, c1: Option<Clock>, plan: RestartPlan) -> bool {
    let b = g1.logic.game_board;
    &&& g1.ui.is_fresh()
    &&& g1.ui.display_mode == g0.ui.display_mode
    &&& b.move_history@.len() == 0
    &&& b.fens() == seq![START_FEN@]
    &&& b.taken_pieces@.len() == 0
    &&& b.consecutive_non_pawn_or_capture == 0
    &&& b.history_position_index is None
    &&& b.original_flip_state is None
    &&& b.is_flipped == plan.bot_starts
    &&& g1.logic.player_turn == PieceColor::White
    &&& g1.logic.game_state == GameState::Playing
    &&& !g1.logic.game_ended_by_time
    &&& match g0.logic.bot {
        Some(b0) => g1.logic.bot matches Some(b1) && {
            &&& b1.engine_path@ == b0.engine_path@
            &&& b1.bot_will_move == b0.bot_will_move
            &&& b1.is_bot_starting == plan.bot_starts
            &&& b1.depth == b0.depth
            &&& b1.difficulty == b0.difficulty
        },
        None => g1.logic.bot is None,
    }
    &&& match g0.logic.opponent {
        Some(o) => g1.logic.opponent matches Some(o1) && opponent_copied(o, o1),
        None => g1.logic.opponent is None,
    }
    &&& match plan.clock_seconds {
        Some(sec) => c1 matches Some(c) && {
            &&& c.base_time(PieceColor::White) == sec * 1_000_000_000
            &&& c.base_time(PieceColor::Black) == sec * 1_000_000_000
            &&& !c.running()
            &&& c.active() is None
            &&& !c.has_start()
        },
        None => c1 is None,
    }
}

/// Restarts the game on its page, keeping the engine and the opponent, the
/// coin being `coin_white` (see `restart_plan_with` for the screen, the
/// color, the clock and who starts): the puzzle is dropped and the game
/// starts again (`game_restarted`). Returns the plan; when the engine
/// starts, the application asks it for its first move.
pub fn restart_game_with(
    game: &mut Game,
    clock: &mut Option<Clock>,
    ui: &mut UiState,
    form: &mut GameModeState,
    puzzle: &mut Option<PuzzleGame>,
    coin_white: bool,
) -> (r: RestartPlan)
    requires
        old(form).clock_cursor == TIME_CONTROL_CUSTOM_INDEX ==> old(form).custom_time_minutes * 60 <= u32::MAX,
    ensures
        *final(puzzle) is None,
        game_restarted(*old(game), *final(game), *final(clock), r),
        *final(ui) == (UiState { current_popup: None, popup_message: None, end_screen_dismissed: false, ..*old(ui) }),
        *final(form) == (GameModeState {
            selected_color: color_after_restart(
                *old(form),
                old(game).logic.bot is Some,
                old(game).logic.opponent is Some,
                coin_white,
            ),
            ..*old(form)
        }),
        r.clock_seconds == (if (old(ui).current_page == Pages::Solo && old(game).logic.bot is None
            && old(game).logic.opponent is None) || (old(game).logic.bot is Some && old(game).logic.opponent is None) {
            match time_control_seconds(old(form).clock_cursor, old(form).custom_time_minutes) {
                Some(sec) => Some(sec as u32),
                None => None,
            }
        } else {
            None
        }),
        r.bot_starts == (old(game).logic.bot is Some && final(form).selected_color == Some(PieceColor::Black)),
{
    *puzzle = None;
    let bot: Option<Bot> = match &game.logic.bot {
        Some(b) => Some(b.clone()),
        None => None,
    };
    let opponent = match &game.logic.opponent {
        Some(o) => Some(o.clone()),
        None => None,
    };
    let page = ui.current_page;
    let plan = restart_plan_with(page, bot.is_some(), opponent.is_some(), ui, form, coin_white);
    let display_mode = game.ui.display_mode;
    game.logic = GameLogic::default();
    game.ui = UI::default();
    game.ui.display_mode = display_mode;
    game.logic.bot = match bot {
        Some(mut b) => {
            b.is_bot_starting = plan.bot_starts;
            Some(b)
        },
        None => None,
    };
    game.logic.opponent = opponent;
    *clock = match plan.clock_seconds {
        Some(sec) => Some(Clock::new(sec)),
        None => None,
    };
    if plan.bot_starts {
        game.logic.game_board.flip_the_board();
    }
    plan
}

/// Restarts the game, the coin being tossed (see `restart_game_with`):
/// the same happens for one of the two sides of the coin.
pub fn restart_game(
    game: &mut Game,
    clock: &mut Option<Clock>,
    ui: &mut UiState,
    form: &mut GameModeState,
    puzzle: &mut Option<PuzzleGame>,
) -> (r: RestartPlan)
    requires
        old(form).clock_cursor == TIME_CONTROL_CUSTOM_INDEX ==> old(form).custom_time_minutes * 60 <= u32::MAX,
    ensures
        *final(puzzle) is None,
        game_restarted(*old(game), *final(game), *final(clock), r),
        *final(ui) == (UiState { current_popup: None, popup_message: None, end_screen_dismissed: false, ..*old(ui) }),
        *final(form) == (GameModeState { selected_color: final(form).selected_color, ..*old(form) }),
        ({
            let tossed = old(game).logic.bot is Some && old(game).logic.opponent is None && old(form).is_random_color;
            &&& tossed ==> final(form).selected_color is Some
            &&& !tossed ==> final(form).selected_color == old(form).selected_color
        }),
        r.clock_seconds == (if (old(ui).current_page == Pages::Solo && old(game).logic.bot is None
            && old(game).logic.opponent is None) || (old(game).logic.bot is Some && old(game).logic.opponent is None) {
            match time_control_seconds(old(form).clock_cursor, old(form).custom_time_minutes) {
                Some(sec) => Some(sec as u32),
                None => None,
            }
        } else {
            None
        }),
        r.bot_starts == (old(game).logic.bot is Some && final(form).selected_color == Some(PieceColor::Black)),
{
    let coin_white = coin_toss();
    restart_game_with(game, clock, ui, form, puzzle, coin_white)
}

} // verus!
