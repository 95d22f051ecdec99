//! Saving a game in progress and taking it up again: which games are kept,
//! when a save is written, what it holds, and how the game is rebuilt from
//! it. Reading and writing the save file is the application's part.

use vstd::prelude::*;
use crate::chess::{Piece, START_FEN, fen_normal_form, fen_valid, move_ok, normalize_fen, uci_of_move, uci_standard};
use crate::constants::{Pages, Popups};
use crate::game_logic::bot::Bot;
use crate::game_logic::clock::Clock;
use crate::game_logic::game::{Game, GameLogic, GameState, synced_turn};
use crate::game_logic::game_board::{GameBoard, checked_last, replay};
use crate::game_logic::ui::UI;
use crate::pieces::PieceColor;
use crate::state::{BotState, GameModeState, UiState};
use crate::text::{chars_of, string_of, trimmed, words};

verus! {

/// The games that can be saved and taken up again.
#[derive(Clone, Copy, Debug, PartialEq, Eq, Structural)]
pub enum ResumeMode {
    /// A local game for two players.
    Local,
    /// A game against the engine.
    Bot,
}

/// The clock of a saved game.
#[derive(Clone, Copy, Debug, PartialEq, Eq, Structural)]
pub struct ClockState {
    /// White's time left, in milliseconds.
    pub white_ms: u64,
    /// Black's time left, in milliseconds.
    pub black_ms: u64,
    /// The time control chosen in the game-mode form.
    pub clock_cursor: u32,
    /// The custom time of the game-mode form, in minutes.
    pub custom_minutes: u32,
}

/// The engine settings of a saved game.
#[derive(Debug)]
pub struct BotConfig {
    /// The engine command line.
    pub path: String,
    /// The search depth.
    pub depth: u8,
    /// The difficulty preset.
    pub difficulty: Option<u8>,
    /// The player's side: "white" or "black".
    pub player_color: String,
    /// Whether the side was drawn at random.
    pub is_random_color: bool,
}

/// A saved game.
#[derive(Debug)]
pub struct SavedGame {
    /// Which kind of game it is.
    pub mode: ResumeMode,
    /// The position, as FEN.
    pub fen: String,
    /// Whether the board was turned round.
    pub is_flipped: bool,
    /// The pieces taken.
    pub taken_pieces: Vec<Piece>,
    /// The engine settings, for a game against the engine.
    pub bot: Option<BotConfig>,
    /// The clock, if the game had one.
    pub clock: Option<ClockState>,
    /// The moves played, as UCI text.
    pub moves_uci: Vec<String>,
}

/// The kind of game being played, if it is one that is saved: a local game
/// on its page, or a game against the engine on its page; never a
/// networked or Lichess game.
pub open spec fn resume_mode_for(page: Pages, has_bot: bool, has_opponent: bool) -> Option<ResumeMode> {
    if has_opponent {
        None
    } else if page == Pages::Solo && !has_bot {
        Some(ResumeMode::Local)
    } else if page == Pages::Bot && has_bot {
        Some(ResumeMode::Bot)
    } else {
        None
    }
}

/// The kind of game being played, if it is saved (see `resume_mode_for`).
pub fn current_resume_mode(page: Pages, has_bot: bool, has_opponent: bool) -> (r: Option<ResumeMode>)
    ensures
        r == resume_mode_for(page, has_bot, has_opponent),
{
    if has_opponent {
        return None;
    }
    if page == Pages::Solo && !has_bot {
        Some(ResumeMode::Local)
    } else if page == Pages::Bot && has_bot {
        Some(ResumeMode::Bot)
    } else {
        None
    }
}

/// Whether a save is to be written: for a game that is saved, being
/// played (not over, no promotion to choose), with a move made, and, unless
/// `force`, a move made since the last save.
pub open spec fn save_due(
    mode: Option<ResumeMode>,
    st: GameState,
    move_count: usize,
    force: bool,
    last_saved: Option<usize>,
) -> bool {
    &&& mode is Some
    &&& st == GameState::Playing
    &&& move_count > 0
    &&& (force || last_saved != Some(move_count))
}

/// Whether a save is to be written (see `save_due`).
pub fn should_write_resume(
    mode: Option<ResumeMode>,
    st: GameState,
    move_count: usize,
    force: bool,
    last_saved: Option<usize>,
) -> (r: bool)
    ensures
        r == save_due(mode, st, move_count, force, last_saved),
{
    if mode.is_none() || st != GameState::Playing || move_count == 0 {
        return false;
    }
    if !force {
        if let Some(last) = last_saved {
            if last == move_count {
                return false;
            }
        }
    }
    true
}

/// How the player's side is written in a save: "black" for Black,
/// "white" otherwise.
pub open spec fn color_word(c: Option<PieceColor>) -> Seq<char> {
    match c {
        Some(PieceColor::Black) => "black"@,
        _ => "white"@,
    }
}

/// The side a save names: Black for "black", White for anything else.
pub open spec fn word_color(w: Seq<char>) -> PieceColor {
    if w == "black"@ { PieceColor::Black } else { PieceColor::White }
}

/// How the player's side is written in a save (see `color_word`).
pub fn player_color_word(c: Option<PieceColor>) -> (r: String)
    ensures
        r@ == color_word(c),
{
    match c {
        Some(PieceColor::Black) => String::from_str("black"),
        _ => String::from_str("white"),
    }
}

/// The side a save names (see `word_color`).
pub fn player_color_of_word(w: &str) -> (r: PieceColor)
    ensures
        r == word_color(w@),
{
    let v = chars_of(w);
    let black = chars_of("black");
    if crate::text::chars_eq(&v, &black) { PieceColor::Black } else { PieceColor::White }
}

/// Whether `c` holds the engine settings to save: there are some when an
/// engine is set and its path known, with the engine's depth and difficulty
/// and the player's side as chosen in the form.
pub open spec fn bot_config_of(c: Option<BotConfig>, bot: Option<Bot>, engine_path: Option<String>, form: GameModeState) -> bool {
    &&& (c is Some <==> (bot is Some && engine_path is Some))
    &&& c matches Some(c) ==> {
        &&& c.path@ == engine_path->0@
        &&& c.depth == bot->0.depth
        &&& c.difficulty == bot->0.difficulty
        &&& c.player_color@ == color_word(form.selected_color)
        &&& c.is_random_color == form.is_random_color
    }
}

/// The engine settings to save: with an engine and its path known, its
/// depth and difficulty and the player's side as chosen in the form.
pub fn bot_config_for_save(bot: &Option<Bot>, engine_path: &Option<String>, form: &GameModeState) -> (r: Option<BotConfig>)
    ensures
        bot_config_of(r, *bot, *engine_path, *form),
{
    let b = match bot {
        Some(b) => b,
        None => return None,
    };
    let path = match engine_path {
        Some(p) => p.clone(),
        None => return None,
    };
    Some(BotConfig {
        path,
        depth: b.depth,
        difficulty: b.difficulty,
        player_color: player_color_word(form.selected_color),
        is_random_color: form.is_random_color,
    })
}

/// The clock to save, `elapsed` nanoseconds into the turn: each player's
/// time left in whole milliseconds (as a `u64`), and the time control of
/// the form.
pub open spec fn clock_state_of(clock: Option<Clock>, elapsed: int, form: GameModeState) -> Option<ClockState> {
    match clock {
        Some(c) => Some(ClockState {
            white_ms: (c.time_at(PieceColor::White, elapsed) / 1_000_000) as u64,
            black_ms: (c.time_at(PieceColor::Black, elapsed) / 1_000_000) as u64,
            clock_cursor: form.clock_cursor,
            custom_minutes: form.custom_time_minutes,
        }),
        None => None,
    }
}

/// The clock to save, `elapsed` nanoseconds into the turn: each player's
/// time left in whole milliseconds, and the time control of the form.
pub fn clock_state_at(clock: &Option<Clock>, elapsed: u128, form: &GameModeState) -> (r: Option<ClockState>)
    ensures
        r == clock_state_of(*clock, elapsed as int, *form),
{
    match clock {
        Some(c) => {
            let white = c.get_time_at(PieceColor::White, elapsed) / 1_000_000;
            let black = c.get_time_at(PieceColor::Black, elapsed) / 1_000_000;
            Some(ClockState {
                white_ms: white as u64,
                black_ms: black as u64,
                clock_cursor: form.clock_cursor,
                custom_minutes: form.custom_time_minutes,
            })
        },
        None => None,
    }
}

/// The moves of a save written one after the other, a space between two.
pub open spec fn spaced(ms: Seq<Seq<char>>) -> Seq<char>
    decreases ms.len(),
{
    if ms.len() == 0 {
        Seq::empty()
    } else if ms.len() == 1 {
        ms[0]
    } else {
        spaced(ms.drop_last()) + seq![' '] + ms.last()
    }
}

/// The text of each move of a save.
pub open spec fn move_texts(ms: Seq<String>) -> Seq<Seq<char>> {
    ms.map_values(|s: String| s@)
}

/// The moves of a save in one text (see `spaced`).
pub fn join_moves(ms: &Vec<String>) -> (r: String)
    ensures
        r@ == spaced(move_texts(ms@)),
{
    let mut out: Vec<char> = Vec::new();
    let mut i: usize = 0;
    while i < ms.len()
        invariant
            i <= ms@.len(),
            out@ == spaced(move_texts(ms@.subrange(0, i as int))),
        decreases ms@.len() - i,
    {
        let word = chars_of(ms[i].as_str());
        if i > 0 {
            out.push(' ');
        }
        let ghost before = out@;
        let mut j: usize = 0;
        while j < word.len()
            invariant
                j <= word@.len(),
                out@ == before + word@.subrange(0, j as int),
            decreases word@.len() - j,
        {
            out.push(word[j]);
            proof { assert(word@.subrange(0, j as int + 1) =~= word@.subrange(0, j as int).push(word@[j as int])); }
            j += 1;
        }
        proof {
            assert(word@.subrange(0, word@.len() as int) =~= word@);
            let pre = move_texts(ms@.subrange(0, i as int));
            let next = move_texts(ms@.subrange(0, i as int + 1));
            assert(next.drop_last() =~= pre);
            assert(next.last() == ms@[i as int]@);
            if i == 0 {
                assert(next =~= seq![ms@[0]@]);
            }
        }
        i += 1;
    }
    proof { assert(ms@.subrange(0, ms@.len() as int) =~= ms@); }
    string_of(&out)
}

/// The save of a game being played, `elapsed` nanoseconds into the turn:
/// the position shown, whether the board is turned, the pieces taken, the
/// engine settings for a game against the engine (`bot_config_of`), the
/// clock (`clock_state_of`) and the moves as UCI text (`uci_standard`).
pub fn saved_game_of(
    logic: &GameLogic,
    mode: ResumeMode,
    clock: &Option<Clock>,
    elapsed: u128,
    form: &GameModeState,
    engine_path: &Option<String>,
) -> (r: SavedGame)
    requires
        logic.game_board.position_history@.len() > 0,
        logic.game_board.moves_ok(),
    ensures
        r.mode == mode,
        r.fen@ == logic.game_board.shown(),
        r.is_flipped == logic.game_board.is_flipped,
        r.taken_pieces@ == logic.game_board.taken_pieces@,
        mode == ResumeMode::Bot ==> bot_config_of(r.bot, logic.bot, *engine_path, *form),
        mode == ResumeMode::Local ==> r.bot is None,
        r.clock == clock_state_of(*clock, elapsed as int, *form),
        r.moves_uci@.len() == logic.game_board.move_history@.len(),
        forall|i: int| 0 <= i < r.moves_uci@.len() ==> #[trigger] r.moves_uci@[i]@ == uci_standard(
            logic.game_board.move_history@[i],
        ),
{
    let b = &logic.game_board;
    let mut taken: Vec<Piece> = Vec::new();
    let mut i: usize = 0;
    while i < b.taken_pieces.len()
        invariant
            i <= b.taken_pieces@.len(),
            taken@ == b.taken_pieces@.subrange(0, i as int),
        decreases b.taken_pieces@.len() - i,
    {
        taken.push(b.taken_pieces[i]);
        proof {
            assert(b.taken_pieces@.subrange(0, i as int + 1) =~= b.taken_pieces@.subrange(0, i as int).push(
                b.taken_pieces@[i as int],
            ));
        }
        i += 1;
    }
    proof { assert(b.taken_pieces@.subrange(0, b.taken_pieces@.len() as int) =~= b.taken_pieces@); }
    let mut moves: Vec<String> = Vec::new();
    let mut k: usize = 0;
    while k < b.move_history.len()
        invariant
            k <= b.move_history@.len(),
            b.moves_ok(),
            moves@.len() == k,
            forall|j: int| 0 <= j < k ==> #[trigger] moves@[j]@ == uci_standard(b.move_history@[j]),
        decreases b.move_history@.len() - k,
    {
        proof { assert(move_ok(b.move_history@[k as int])); }
        moves.push(uci_of_move(&b.move_history[k]));
        k += 1;
    }
    let bot = match mode {
        ResumeMode::Bot => bot_config_for_save(&logic.bot, engine_path, form),
        ResumeMode::Local => None,
    };
    SavedGame {
        mode,
        fen: b.fen_position(),
        is_flipped: b.is_flipped,
        taken_pieces: taken,
        bot,
        clock: clock_state_at(clock, elapsed, form),
        moves_uci: moves,
    }
}

/// The board a save gives back, its position read as `canonical`: the
/// board turned as saved, at its latest position, with no count of moves
/// without a pawn move or a capture. A save without moves gives that
/// position alone, with the pieces taken as saved; a save with moves
/// replays them from the starting position (`GameBoard::reconstruct_history`
/// with the saved FEN as the expected position), its pieces taken being
/// those the moves take.
pub open spec fn restored_board(b: GameBoard, saved: SavedGame, canonical: Seq<char>) -> bool {
    &&& b.is_flipped == saved.is_flipped
    &&& b.history_position_index is None
    &&& b.original_flip_state is None
    &&& b.consecutive_non_pawn_or_capture == 0
    &&& if saved.moves_uci@.len() == 0 {
        &&& b.fens() == seq![canonical]
        &&& b.move_history@.len() == 0
        &&& b.taken_pieces@ == saved.taken_pieces@
    } else {
        let text = spaced(move_texts(saved.moves_uci@));
        if trimmed(text).len() == 0 {
            &&& b.fens() == seq![START_FEN@]
            &&& b.move_history@.len() == 0
            &&& b.taken_pieces@.len() == 0
        } else {
            let r = replay(START_FEN@, words(text));
            let ps = seq![START_FEN@] + r.1;
            &&& b.move_history@ == r.0
            &&& b.fens() == ps.update(ps.len() - 1, checked_last(ps.last(), Some(saved.fen@)))
            &&& b.taken_pieces@ == r.2
        }
    }
}

/// The board a save gives back (see `restored_board`); none when the
/// saved position cannot be read.
pub fn restore_board(saved: &SavedGame) -> (r: Option<GameBoard>)
    ensures
        match fen_normal_form(saved.fen@) {
            None => r is None,
            Some(n) => r matches Some(b) && restored_board(b, *saved, n),
        },
        r is Some <==> fen_valid(saved.fen@),
{
    let canonical = match normalize_fen(saved.fen.as_str()) {
        Some(n) => n,
        None => return None,
    };
    let mut b = GameBoard::default();
    if saved.moves_uci.len() == 0 {
        let mut positions: Vec<String> = Vec::new();
        positions.push(canonical);
        let mut taken: Vec<Piece> = Vec::new();
        let mut i: usize = 0;
        while i < saved.taken_pieces.len()
            invariant
                i <= saved.taken_pieces@.len(),
                taken@ == saved.taken_pieces@.subrange(0, i as int),
            decreases saved.taken_pieces@.len() - i,
        {
            taken.push(saved.taken_pieces[i]);
            proof {
                assert(saved.taken_pieces@.subrange(0, i as int + 1) =~= saved.taken_pieces@.subrange(0, i as int).push(
                    saved.taken_pieces@[i as int],
                ));
            }
            i += 1;
        }
        proof {
            assert(saved.taken_pieces@.subrange(0, saved.taken_pieces@.len() as int) =~= saved.taken_pieces@);
        }
        b.position_history = positions;
        b.move_history = Vec::new();
        b.taken_pieces = taken;
        proof { assert(b.fens() =~= seq![canonical@]); }
    } else {
        let text = join_moves(&saved.moves_uci);
        b.reconstruct_history(text.as_str(), Some(saved.fen.as_str()));
    }
    b.history_position_index = None;
    b.is_flipped = saved.is_flipped;
    Some(b)
}

/// What came of taking up a save.
#[derive(Clone, Copy, Debug, PartialEq, Eq, Structural)]
pub enum ResumeOutcome {
    /// There is no save to take up.
    NoSave,
    /// The saved position cannot be read; the save is to be deleted.
    Corrupted,
    /// A save of a game against the engine lacks the engine settings.
    MissingBotConfig,
    /// The game goes on; `bot_to_move` when the engine is to play first.
    Resumed { bot_to_move: bool },
}

/// The message shown when there is no save to take up.
pub open spec fn no_save_message() -> Seq<char> {
    "No saved game to resume."@
}

/// The message shown for a save whose position cannot be read.
pub open spec fn corrupted_message() -> Seq<char> {
    "Saved game is corrupted and cannot be resumed."@
}

/// The message shown for a save of a game against the engine without
/// engine settings.
pub open spec fn missing_bot_message() -> Seq<char> {
    "Saved bot game is missing its engine config."@
}

/// The game after a save is taken up: a new game shown as before (the
/// view fresh, its display mode kept), on the board the save gives back,
/// the side to move taken from its position, being played.
pub open spec fn resumed_game(g0: Game, g1: Game, saved: SavedGame, canonical: Seq<char>) -> bool {
    &&& g1.ui.is_fresh()
    &&& g1.ui.display_mode == g0.ui.display_mode
    &&& restored_board(g1.logic.game_board, saved, canonical)
    &&& g1.logic.player_turn == synced_turn(g1.logic.game_board, PieceColor::White)
    &&& g1.logic.game_state == GameState::Playing
    &&& g1.logic.opponent is None
}

/// The clock after a save is taken up: the saved times, running for the
/// side to move; none when the save has no clock.
pub open spec fn resumed_clock(clock: Option<Clock>, saved: SavedGame, turn: PieceColor) -> bool {
    match saved.clock {
        None => clock is None,
        Some(cs) => clock matches Some(c) && {
            &&& c.base_time(PieceColor::White) == cs.white_ms * 1_000_000
            &&& c.base_time(PieceColor::Black) == cs.black_ms * 1_000_000
            &&& c.running()
            &&& c.active() == Some(turn)
        },
    }
}

/// The game-mode form after a save is taken up: the saved time control,
/// when the save has a clock.
pub open spec fn form_after_resume(f0: GameModeState, f1: GameModeState, saved: SavedGame) -> bool {
    match saved.clock {
        None => f1.clock_cursor == f0.clock_cursor && f1.custom_time_minutes == f0.custom_time_minutes,
        Some(cs) => f1.clock_cursor == cs.clock_cursor && f1.custom_time_minutes == cs.custom_minutes,
    }
}

/// A save taken up (`g0`, `c0`, `ui0`, `f0`, `b0` to `g1`, `c1`, `ui1`, `f1`,
/// `b1`, with what came of it `r`). A save
/// whose position cannot be read (its FEN is not a legal position) changes
/// nothing but the screen, which shows an error (`Corrupted`); any other
/// save is taken up. Otherwise the game starts again from the
/// save (`resumed_game`), with its clock (`resumed_clock`) and time control
/// (`form_after_resume`). A local game goes on on its page. A game against
/// the engine needs its settings (else an error is shown,
/// `MissingBotConfig`): the engine is set up again with them and the
/// player's side as saved, and starts when it is its turn.
pub open spec fn save_taken_up(
    g0: Game,
    c0: Option<Clock>,
    ui0: UiState,
    f0: GameModeState,
    b0: BotState,
    saved: SavedGame,
    g1: Game,
    c1: Option<Clock>,
    ui1: UiState,
    f1: GameModeState,
    b1: BotState,
    r: ResumeOutcome,
) -> bool {
    &&& ((r == ResumeOutcome::Corrupted) <==> !fen_valid(saved.fen@))
    &&& (fen_normal_form(saved.fen@) is None ==> {
        &&& r == ResumeOutcome::Corrupted
        &&& g1 == g0
        &&& c1 == c0
        &&& f1 == f0
        &&& b1 == b0
        &&& ui1.current_popup == Some(Popups::Error)
        &&& ui1.popup_message matches Some(m) && m@ == corrupted_message()
        &&& ui1.current_page == ui0.current_page
    })
    &&& (fen_normal_form(saved.fen@) matches Some(n) ==> {
        let turn = g1.logic.player_turn;
        &&& resumed_game(g0, g1, saved, n)
        &&& resumed_clock(c1, saved, turn)
        &&& form_after_resume(f0, f1, saved)
        &&& match saved.mode {
            ResumeMode::Local => {
                &&& r == (ResumeOutcome::Resumed { bot_to_move: false })
                &&& g1.logic.bot is None
                &&& b1 == b0
                &&& f1.selected_color == f0.selected_color
                &&& f1.is_random_color == f0.is_random_color
                &&& ui1 == (UiState {
                    current_page: Pages::Solo,
                    current_popup: None,
                    popup_message: None,
                    ..ui0
                })
            },
            ResumeMode::Bot => match saved.bot {
                None => {
                    &&& r == ResumeOutcome::MissingBotConfig
                    &&& g1.logic.bot is None
                    &&& b1 == b0
                    &&& f1.selected_color == f0.selected_color
                    &&& ui1.current_popup == Some(Popups::Error)
                    &&& ui1.popup_message matches Some(m) && m@ == missing_bot_message()
                    &&& ui1.current_page == ui0.current_page
                },
                Some(cfg) => {
                    let player = word_color(cfg.player_color@);
                    &&& r == (ResumeOutcome::Resumed { bot_to_move: turn != player })
                    &&& g1.logic.bot matches Some(b) && {
                        &&& b.engine_path@ == cfg.path@
                        &&& !b.bot_will_move
                        &&& b.is_bot_starting == (turn != player)
                        &&& b.depth == cfg.depth
                        &&& b.difficulty == cfg.difficulty
                    }
                    &&& b1.chess_engine_path matches Some(p) && p@ == cfg.path@
                    &&& b1.bot_depth == cfg.depth
                    &&& b1.bot_difficulty == cfg.difficulty
                    &&& f1.selected_color == Some(player)
                    &&& f1.is_random_color == cfg.is_random_color
                    &&& ui1 == (UiState {
                        current_page: Pages::Bot,
                        current_popup: None,
                        popup_message: None,
                        ..ui0
                    })
                },
            },
        }
    })
}

/// Takes up a save, the save file being read by the application (see
/// `save_taken_up`). Once it is taken up, no move of it counts as saved
/// yet beyond the start (`last_saved` is zero).
pub fn resume_from_saved(
    game: &mut Game,
    clock: &mut Option<Clock>,
    ui: &mut UiState,
    form: &mut GameModeState,
    bot_state: &mut BotState,
    saved: &SavedGame,
    last_saved: &mut Option<usize>,
) -> (r: ResumeOutcome)
    ensures
        *final(last_saved) == (if r is Resumed { Some(0usize) } else { *old(last_saved) }),
        save_taken_up(
            *old(game),
            *old(clock),
            *old(ui),
            *old(form),
            *old(bot_state),
            *saved,
            *final(game),
            *final(clock),
            *final(ui),
            *final(form),
            *final(bot_state),
            r,
        ),
{
    let board = match restore_board(saved) {
        Some(b) => b,
        None => {
            ui.show_message_popup(String::from_str("Saved game is corrupted and cannot be resumed."), Popups::Error);
            return ResumeOutcome::Corrupted;
        },
    };
    let display_mode = game.ui.display_mode;
    game.logic = GameLogic::default();
    game.ui = UI::default();
    game.ui.display_mode = display_mode;
    game.logic.game_board = board;
    game.logic.sync_player_turn_with_position();
    game.logic.game_state = GameState::Playing;
    let turn = game.logic.player_turn;
    match &saved.clock {
        Some(cs) => {
            let mut c = Clock::with_remaining_ms(cs.white_ms, cs.black_ms);
            c.start(turn);
            *clock = Some(c);
            form.clock_cursor = cs.clock_cursor;
            form.custom_time_minutes = cs.custom_minutes;
        },
        None => {
            *clock = None;
        },
    }
    match saved.mode {
        ResumeMode::Local => {
            ui.current_page = Pages::Solo;
            ui.current_popup = None;
            ui.popup_message = None;
            *last_saved = Some(0);
            ResumeOutcome::Resumed { bot_to_move: false }
        },
        ResumeMode::Bot => match &saved.bot {
            None => {
                ui.show_message_popup(String::from_str("Saved bot game is missing its engine config."), Popups::Error);
                ResumeOutcome::MissingBotConfig
            },
            Some(cfg) => {
                let player = player_color_of_word(cfg.player_color.as_str());
                bot_state.chess_engine_path = Some(cfg.path.clone());
                bot_state.bot_depth = cfg.depth;
                bot_state.bot_difficulty = cfg.difficulty;
                form.selected_color = Some(player);
                form.is_random_color = cfg.is_random_color;
                let bot_starts = turn != player;
                game.logic.bot = Some(Bot::new(cfg.path.as_str(), bot_starts, cfg.depth, cfg.difficulty));
                ui.current_page = Pages::Bot;
                ui.current_popup = None;
                ui.popup_message = None;
                *last_saved = Some(0);
                ResumeOutcome::Resumed { bot_to_move: bot_starts }
            },
        },
    }
}

/// Takes up what the save file gave, if anything: without a save nothing
/// changes but the screen, which shows an error (`NoSave`); a save is taken
/// up as `resume_from_saved` says.
pub fn resume_loaded(
    game: &mut Game,
    clock: &mut Option<Clock>,
    ui: &mut UiState,
    form: &mut GameModeState,
    bot_state: &mut BotState,
    saved: Option<&SavedGame>,
    last_saved: &mut Option<usize>,
) -> (r: ResumeOutcome)
    ensures
        *final(last_saved) == (if r is Resumed { Some(0usize) } else { *old(last_saved) }),
        saved is None ==> {
            &&& r == ResumeOutcome::NoSave
            &&& *final(game) == *old(game)
            &&& *final(clock) == *old(clock)
            &&& *final(form) == *old(form)
            &&& *final(bot_state) == *old(bot_state)
            &&& *final(ui) == (UiState {
                current_popup: Some(Popups::Error),
                popup_message: final(ui).popup_message,
                ..*old(ui)
            })
            &&& final(ui).popup_message matches Some(m) && m@ == no_save_message()
        },
        saved matches Some(s) ==> save_taken_up(
            *old(game),
            *old(clock),
            *old(ui),
            *old(form),
            *old(bot_state),
            *s,
            *final(game),
            *final(clock),
            *final(ui),
            *final(form),
            *final(bot_state),
            r,
        ),
{
    match saved {
        None => {
            ui.show_message_popup(String::from_str("No saved game to resume."), Popups::Error);
            ResumeOutcome::NoSave
        },
        Some(s) => resume_from_saved(game, clock, ui, form, bot_state, s, last_saved),
    }
}

} // verus!
