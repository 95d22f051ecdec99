//! The keys of the pages, when no popup is up: the home menu, the game
//! pages, the Lichess menu, the ongoing games and the credits.
//!
//! What a key changes on the screen (the menu cursor, the page, the
//! popups) is done here; what needs the game, the engine, the network or
//! the configuration is handed back as a `PageAction`.

use vstd::prelude::*;
use crate::constants::{Pages, Popups};
use crate::game_logic::game::GameState;
use crate::menu::{MenuKey, is_confirm, is_down, is_left, is_right, is_up};
use crate::pieces::PieceColor;
use crate::popups::{PopupAction, PopupScreen, after_popup_key, submitted_text};
use crate::state::{AvailableGameMode, GameModeState, UiState, cursor_back, cursor_forward};

verus! {

/// The entries of the home menu: play, Lichess, skin, sound, help, credits.
pub const HOME_MENU_ITEMS: u8 = 6u8;

/// The entries of the Lichess menu: seek, puzzle, ongoing games, join by
/// code, disconnect.
pub const LICHESS_MENU_ITEMS: u8 = 5u8;

/// What the application is to do after a key on a page.
#[derive(Clone, Copy, Debug, PartialEq, Eq, Structural)]
pub enum PageAction {
    /// Nothing more.
    Nothing,
    /// Leave the application.
    Quit,
    /// Show the next skin, and save it in the configuration when `save`.
    CycleSkin { save: bool },
    /// Show the previous skin and save it in the configuration.
    CycleSkinBack,
    /// Open the home menu entry under the cursor.
    MenuSelect,
    /// Start the game again.
    Restart,
    /// Leave the game for the home page, resetting it.
    ResetHome,
    /// Show the next position of the history.
    HistoryNext,
    /// Show the previous position of the history.
    HistoryPrevious,
    /// Show a hint for the puzzle.
    PuzzleHint,
    /// Move the board cursor up.
    CursorUp,
    /// Move the board cursor down.
    CursorDown,
    /// Move the board cursor left.
    CursorLeft,
    /// Move the board cursor right.
    CursorRight,
    /// Move the promotion cursor left.
    PromotionLeft,
    /// Move the promotion cursor right.
    PromotionRight,
    /// Select, move or promote with the cell under the cursor.
    CellClick,
    /// Clear the prompt: the move prompt is open.
    AskMove,
    /// Clear the prompt and ask for the Lichess token: its prompt is open.
    AskToken,
    /// Clear the prompt: the game code prompt is open.
    AskGameCode,
    /// Deselect the selected piece.
    Unselect,
    /// Seek a Lichess game.
    SeekLichess,
    /// Start a Lichess puzzle.
    StartPuzzle,
    /// Fetch the ongoing Lichess games.
    FetchOngoingGames,
    /// Forget the Lichess account.
    DisconnectLichess,
    /// Open the ongoing game under the cursor.
    SelectOngoingGame,
    /// The key is for the game-mode menu.
    GameModeMenu,
    /// Fetch the Lichess profile: the Lichess menu is open.
    FetchProfile,
    /// Turn the sound on or off and save it in the configuration.
    ToggleSound,
}

/// What the pages read besides the screen.
#[derive(Clone, Copy, Debug)]
pub struct PageContext {
    /// The state of the game.
    pub game_state: GameState,
    /// The side to play.
    pub player_turn: PieceColor,
    /// The player's side in a Lichess game.
    pub my_color: Option<PieceColor>,
    /// Whether a puzzle is being played.
    pub in_puzzle: bool,
    /// Whether a Lichess token is known.
    pub has_token: bool,
    /// How many ongoing Lichess games are listed.
    pub ongoing_games: usize,
    /// Whether Control is held with the key.
    pub control: bool,
}

/// The screen with the help popup shown, or closed when it is shown.
pub open spec fn help_toggled(ui: UiState) -> UiState {
    if ui.current_popup == Some(Popups::Help) {
        UiState { current_popup: None, popup_message: None, ..ui }
    } else {
        UiState { current_popup: Some(Popups::Help), ..ui }
    }
}

/// The keys every page shares: `q`, or Control and `c`, to quit, `s` for
/// the next skin.
pub open spec fn shared_key(key: MenuKey, ctx: PageContext) -> PageAction {
    if key == MenuKey::Char('q') || (ctx.control && (key == MenuKey::Char('c') || key == MenuKey::Char('C'))) {
        PageAction::Quit
    } else if key == MenuKey::Char('s') {
        PageAction::CycleSkin { save: false }
    } else {
        PageAction::Nothing
    }
}

/// The home menu: up and down move the cursor, left and right change the
/// skin on its entry, Enter or space opens the entry, `?` the help.
pub open spec fn home_key(ui: UiState, key: MenuKey, ctx: PageContext) -> (UiState, PageAction) {
    if is_up(key) {
        (UiState { menu_cursor: cursor_back(ui.menu_cursor, HOME_MENU_ITEMS) as u8, ..ui }, PageAction::Nothing)
    } else if is_down(key) {
        (UiState { menu_cursor: cursor_forward(ui.menu_cursor, HOME_MENU_ITEMS) as u8, ..ui }, PageAction::Nothing)
    } else if is_left(key) && ui.menu_cursor == 2 {
        (ui, PageAction::CycleSkinBack)
    } else if is_right(key) && ui.menu_cursor == 2 {
        (ui, PageAction::CycleSkin { save: true })
    } else if is_confirm(key) {
        (ui, PageAction::MenuSelect)
    } else if key == MenuKey::Char('?') {
        (help_toggled(ui), PageAction::Nothing)
    } else {
        (ui, shared_key(key, ctx))
    }
}

/// Whether the board cursor may move sideways: in a Lichess game only on
/// the player's turn.
pub open spec fn may_move_cursor(ui: UiState, ctx: PageContext) -> bool {
    ui.current_page != Pages::Lichess || (ctx.my_color matches Some(c) && ctx.player_turn == c)
}

/// The end screen of the game: the puzzle's in a puzzle.
pub open spec fn end_screen(ctx: PageContext) -> Popups {
    if ctx.in_puzzle { Popups::PuzzleEndScreen } else { Popups::EndScreen }
}

/// The keys of a game, shared by the game pages.
pub open spec fn chess_key(ui: UiState, key: MenuKey, ctx: PageContext) -> (UiState, PageAction) {
    let st = ctx.game_state;
    if is_up(key) && st == GameState::Playing {
        (ui, PageAction::CursorUp)
    } else if is_down(key) && st == GameState::Playing {
        (ui, PageAction::CursorDown)
    } else if is_right(key) {
        if st == GameState::Promotion {
            (ui, PageAction::PromotionRight)
        } else if st == GameState::Playing && may_move_cursor(ui, ctx) {
            (ui, PageAction::CursorRight)
        } else {
            (ui, PageAction::Nothing)
        }
    } else if is_left(key) {
        if st == GameState::Promotion {
            (ui, PageAction::PromotionLeft)
        } else if st == GameState::Playing {
            (ui, if may_move_cursor(ui, ctx) { PageAction::CursorLeft } else { PageAction::Nothing })
        } else if ui.current_popup == Some(Popups::EndScreen) {
            (UiState { current_popup: None, end_screen_dismissed: true, ..ui }, PageAction::Nothing)
        } else {
            (UiState { current_popup: Some(end_screen(ctx)), end_screen_dismissed: false, ..ui }, PageAction::Nothing)
        }
    } else if is_confirm(key) {
        (ui, PageAction::CellClick)
    } else if key == MenuKey::Char('?') {
        (help_toggled(ui), PageAction::Nothing)
    } else if key == MenuKey::Char('s') || key == MenuKey::Char('S') {
        (ui, PageAction::CycleSkin { save: true })
    } else if key == MenuKey::Char('m') {
        (UiState { current_popup: Some(Popups::MoveInputSelection), ..ui }, PageAction::AskMove)
    } else if key == MenuKey::Esc {
        (ui, PageAction::Unselect)
    } else {
        (ui, shared_key(key, ctx))
    }
}

/// Whether the history may be walked: not in a puzzle, nor once the game
/// is over.
pub open spec fn may_walk_history(ctx: PageContext) -> bool {
    !ctx.in_puzzle && ctx.game_state != GameState::Checkmate && ctx.game_state != GameState::Draw
}

/// The local game: `r` restarts, `b` goes home, `n` and `p` walk the
/// history, `t` asks for a puzzle hint; the rest are the game's keys.
pub open spec fn solo_key(ui: UiState, key: MenuKey, ctx: PageContext) -> (UiState, PageAction) {
    if key == MenuKey::Char('r') {
        (ui, PageAction::Restart)
    } else if key == MenuKey::Char('b') {
        (ui, PageAction::ResetHome)
    } else if key == MenuKey::Char('n') || key == MenuKey::Char('N') {
        (ui, if may_walk_history(ctx) { PageAction::HistoryNext } else { PageAction::Nothing })
    } else if key == MenuKey::Char('p') || key == MenuKey::Char('P') {
        (ui, if may_walk_history(ctx) { PageAction::HistoryPrevious } else { PageAction::Nothing })
    } else if (key == MenuKey::Char('t') || key == MenuKey::Char('T')) && ctx.in_puzzle && ui.current_popup is None {
        (ui, PageAction::PuzzleHint)
    } else {
        chess_key(ui, key, ctx)
    }
}

/// The Lichess menu: up and down move the cursor among its entries, Enter
/// or space opens the entry (asking for the token first, for the entries
/// that need it), Esc or `b` goes home, `?` shows the help.
pub open spec fn lichess_menu_key(ui: UiState, key: MenuKey, ctx: PageContext) -> (UiState, PageAction) {
    let c = ui.menu_cursor;
    if is_up(key) {
        (UiState { menu_cursor: cursor_back(c, LICHESS_MENU_ITEMS) as u8, ..ui }, PageAction::Nothing)
    } else if is_down(key) {
        (UiState { menu_cursor: cursor_forward(c, LICHESS_MENU_ITEMS) as u8, ..ui }, PageAction::Nothing)
    } else if is_confirm(key) {
        if c < 4 && !ctx.has_token {
            (UiState { current_popup: Some(Popups::EnterLichessToken), ..ui }, PageAction::AskToken)
        } else if c == 0 {
            (UiState { menu_cursor: 0, current_page: Pages::Lichess, ..ui }, PageAction::SeekLichess)
        } else if c == 1 {
            (ui, PageAction::StartPuzzle)
        } else if c == 2 {
            (ui, PageAction::FetchOngoingGames)
        } else if c == 3 {
            (UiState { current_popup: Some(Popups::EnterGameCode), ..ui }, PageAction::AskGameCode)
        } else if c == 4 {
            (ui, PageAction::DisconnectLichess)
        } else {
            (ui, PageAction::Nothing)
        }
    } else if key == MenuKey::Esc || key == MenuKey::Char('b') {
        (UiState { menu_cursor: 0, current_page: Pages::Home, ..ui }, PageAction::Nothing)
    } else if key == MenuKey::Char('?') {
        (help_toggled(ui), PageAction::Nothing)
    } else {
        (ui, shared_key(key, ctx))
    }
}

/// The ongoing games: up and down move the cursor, stopping at the ends of
/// the list, Enter or space opens the game, `r` asks whether to resign it
/// (when the cursor is on a game), Esc or
/// `b` goes back to the Lichess menu, `?` shows the help.
pub open spec fn ongoing_key(ui: UiState, key: MenuKey, ctx: PageContext) -> (UiState, PageAction) {
    let c = ui.menu_cursor;
    if is_up(key) {
        (UiState { menu_cursor: if c > 0 { (c - 1) as u8 } else { c }, ..ui }, PageAction::Nothing)
    } else if is_down(key) {
        (UiState { menu_cursor: if c + 1 < ctx.ongoing_games { (c + 1) as u8 } else { c }, ..ui }, PageAction::Nothing)
    } else if is_confirm(key) {
        (ui, PageAction::SelectOngoingGame)
    } else if key == MenuKey::Char('r') || key == MenuKey::Char('R') {
        (if c < ctx.ongoing_games { UiState { current_popup: Some(Popups::ResignConfirmation), ..ui } } else { ui },
            PageAction::Nothing)
    } else if key == MenuKey::Esc || key == MenuKey::Char('b') {
        (UiState { menu_cursor: 0, current_page: Pages::LichessMenu, ..ui }, PageAction::Nothing)
    } else if key == MenuKey::Char('?') {
        (help_toggled(ui), PageAction::Nothing)
    } else {
        (ui, shared_key(key, ctx))
    }
}

/// A key on the current page, no popup being up: the screen after it and
/// what the application is to do. The networked and Lichess games add `b`
/// to go home to the game's keys, the engine game `r` and `b`; the credits
/// close with Enter, space or Esc.
pub open spec fn after_page_key(ui: UiState, key: MenuKey, ctx: PageContext) -> (UiState, PageAction) {
    match ui.current_page {
        Pages::Home => home_key(ui, key, ctx),
        Pages::Solo => solo_key(ui, key, ctx),
        Pages::Multiplayer | Pages::Lichess => if key == MenuKey::Char('b') {
            (ui, PageAction::ResetHome)
        } else {
            chess_key(ui, key, ctx)
        },
        Pages::LichessMenu => lichess_menu_key(ui, key, ctx),
        Pages::GameModeMenu => (ui, PageAction::GameModeMenu),
        Pages::OngoingGames => ongoing_key(ui, key, ctx),
        Pages::Bot => if key == MenuKey::Char('r') {
            (ui, PageAction::Restart)
        } else if key == MenuKey::Char('b') {
            (ui, PageAction::ResetHome)
        } else {
            chess_key(ui, key, ctx)
        },
        Pages::Credit => if is_confirm(key) || key == MenuKey::Esc {
            (UiState { current_page: Pages::Home, menu_cursor: 0, ..ui }, PageAction::Nothing)
        } else {
            (ui, shared_key(key, ctx))
        },
        _ => (ui, shared_key(key, ctx)),
    }
}

/// Whether a Lichess token is known: there is one and it is not empty.
pub fn token_known(token: &Option<String>) -> (r: bool)
    ensures
        r == (token matches Some(t) && t@.len() > 0),
{
    match token {
        Some(t) => t.unicode_len() > 0,
        None => false,
    }
}

fn up_key(key: MenuKey) -> (r: bool)
    ensures
        r == is_up(key),
{
    key == MenuKey::Up || key == MenuKey::Char('k')
}

fn down_key(key: MenuKey) -> (r: bool)
    ensures
        r == is_down(key),
{
    key == MenuKey::Down || key == MenuKey::Char('j')
}

fn left_key(key: MenuKey) -> (r: bool)
    ensures
        r == is_left(key),
{
    key == MenuKey::Left || key == MenuKey::Char('h')
}

fn right_key(key: MenuKey) -> (r: bool)
    ensures
        r == is_right(key),
{
    key == MenuKey::Right || key == MenuKey::Char('l')
}

fn confirm_key(key: MenuKey) -> (r: bool)
    ensures
        r == is_confirm(key),
{
    key == MenuKey::Enter || key == MenuKey::Char(' ')
}

/// The shared keys (see `shared_key`).
fn fallback_action(key: MenuKey, ctx: PageContext) -> (r: PageAction)
    ensures
        r == shared_key(key, ctx),
{
    if key == MenuKey::Char('q') || (ctx.control && (key == MenuKey::Char('c') || key == MenuKey::Char('C'))) {
        PageAction::Quit
    } else if key == MenuKey::Char('s') {
        PageAction::CycleSkin { save: false }
    } else {
        PageAction::Nothing
    }
}

/// Opening the home menu entry under the cursor: the game-mode menu with
/// its form back on the first field and the local game chosen; the Lichess
/// menu, once a token is known (else its prompt); the next skin; the sound;
/// the help; the credits.
pub open spec fn menu_selected(ui: UiState, form: GameModeState, has_token: bool) -> (UiState, GameModeState, PageAction) {
    let c = ui.menu_cursor;
    if c == 0 {
        (UiState { menu_cursor: 0, current_page: Pages::GameModeMenu, ..ui },
            GameModeState { selection: Some(AvailableGameMode::Local), form_cursor: 0, form_active: false, ..form },
            PageAction::Nothing)
    } else if c == 1 {
        if has_token {
            (UiState { menu_cursor: 0, current_page: Pages::LichessMenu, ..ui }, form, PageAction::FetchProfile)
        } else {
            (UiState { current_popup: Some(Popups::EnterLichessToken), ..ui }, form, PageAction::AskToken)
        }
    } else if c == 2 {
        (ui, form, PageAction::CycleSkin { save: true })
    } else if c == 3 {
        (ui, form, PageAction::ToggleSound)
    } else if c == 4 {
        (help_toggled(ui), form, PageAction::Nothing)
    } else if c == 5 {
        (UiState { current_page: Pages::Credit, ..ui }, form, PageAction::Nothing)
    } else {
        (ui, form, PageAction::Nothing)
    }
}

/// Opens the home menu entry under the cursor (see `menu_selected`).
pub fn menu_select(ui: &mut UiState, form: &mut GameModeState, has_token: bool) -> (r: PageAction)
    ensures
        (*final(ui), *final(form), r) == menu_selected(*old(ui), *old(form), has_token),
{
    let c = ui.menu_cursor;
    if c == 0 {
        ui.menu_cursor = 0;
        form.selection = Some(AvailableGameMode::Local);
        form.form_cursor = 0;
        form.form_active = false;
        ui.current_page = Pages::GameModeMenu;
        PageAction::Nothing
    } else if c == 1 {
        if has_token {
            ui.menu_cursor = 0;
            ui.current_page = Pages::LichessMenu;
            PageAction::FetchProfile
        } else {
            ui.current_popup = Some(Popups::EnterLichessToken);
            PageAction::AskToken
        }
    } else if c == 2 {
        PageAction::CycleSkin { save: true }
    } else if c == 3 {
        PageAction::ToggleSound
    } else if c == 4 {
        ui.toggle_help();
        PageAction::Nothing
    } else if c == 5 {
        ui.current_page = Pages::Credit;
        PageAction::Nothing
    } else {
        PageAction::Nothing
    }
}

/// `q` quits from every page but the game-mode menu, whose form reads its
/// own keys.
pub proof fn lemma_q_quits(ui: UiState, ctx: PageContext)
    requires
        ui.current_page != Pages::GameModeMenu,
    ensures
        after_page_key(ui, MenuKey::Char('q'), ctx).1 == PageAction::Quit,
{
}

/// `?` opens the help on the home page, the game pages, the Lichess menu
/// and the ongoing games, when no popup is up.
pub proof fn lemma_question_mark_opens_help(ui: UiState, ctx: PageContext)
    requires
        ui.current_popup is None,
        ui.current_page == Pages::Home || ui.current_page == Pages::Solo || ui.current_page == Pages::Multiplayer
            || ui.current_page == Pages::Lichess || ui.current_page == Pages::Bot
            || ui.current_page == Pages::LichessMenu || ui.current_page == Pages::OngoingGames,
    ensures
        after_page_key(ui, MenuKey::Char('?'), ctx) == (UiState { current_popup: Some(Popups::Help), ..ui }, PageAction::Nothing),
{
}

/// `b` leaves a game for the home page, resetting it, and goes back from
/// the Lichess menus.
pub proof fn lemma_b_goes_back(ui: UiState, ctx: PageContext)
    ensures
        ui.current_page == Pages::Solo || ui.current_page == Pages::Multiplayer || ui.current_page == Pages::Lichess
            || ui.current_page == Pages::Bot ==> after_page_key(ui, MenuKey::Char('b'), ctx) == (ui, PageAction::ResetHome),
        ui.current_page == Pages::LichessMenu ==> after_page_key(ui, MenuKey::Char('b'), ctx).0.current_page == Pages::Home,
        ui.current_page == Pages::OngoingGames ==> after_page_key(ui, MenuKey::Char('b'), ctx).0.current_page
            == Pages::LichessMenu,
{
}

/// The message shown once the Lichess account is forgotten.
pub open spec fn disconnected_message() -> Seq<char> {
    "Disconnected from Lichess successfully!\n\n Your token has been removed.\n\n You can reconnect anytime from the Lichess menu."@
}

/// The screen once the Lichess account is forgotten: the home page, the
/// cursor on the first entry, and a message saying so.
pub fn show_disconnected(ui: &mut UiState)
    ensures
        final(ui).current_page == Pages::Home,
        final(ui).menu_cursor == 0,
        final(ui).current_popup == Some(Popups::Success),
        final(ui).popup_message matches Some(m) && m@ == disconnected_message(),
        final(ui).end_screen_dismissed == old(ui).end_screen_dismissed,
{
    ui.navigate_to_homepage();
    ui.show_message_popup(
        String::from_str(
            "Disconnected from Lichess successfully!\n\n Your token has been removed.\n\n You can reconnect anytime from the Lichess menu.",
        ),
        Popups::Success,
    );
}

/// Asking for the help twice from a screen with no popup and no message
/// gives that screen back.
pub proof fn lemma_help_twice(ui: UiState)
    requires
        ui.current_popup is None,
        ui.popup_message is None,
    ensures
        help_toggled(help_toggled(ui)) == ui,
{
}

/// Once a game (not a puzzle) is over, Left hides the end screen shown and
/// a second Left shows it again, the screen coming back as it was.
pub proof fn lemma_end_screen_toggle_twice(ui: UiState, key: MenuKey, ctx: PageContext)
    requires
        is_left(key),
        ctx.game_state == GameState::Checkmate || ctx.game_state == GameState::Draw,
        !ctx.in_puzzle,
        ui.current_popup == Some(Popups::EndScreen),
        !ui.end_screen_dismissed,
    ensures
        chess_key(chess_key(ui, key, ctx).0, key, ctx).0 == ui,
        chess_key(ui, key, ctx).0.current_popup is None,
{
}

impl UiState {
    /// Shows the help popup, or closes it when it is shown.
    fn toggle_help(&mut self)
        ensures
            *final(self) == help_toggled(*old(self)),
    {
        if self.current_popup == Some(Popups::Help) {
            self.current_popup = None;
            self.popup_message = None;
        } else {
            self.current_popup = Some(Popups::Help);
        }
    }

    /// The keys of a game (see `chess_key`).
    fn chess_input(&mut self, key: MenuKey, ctx: PageContext) -> (r: PageAction)
        ensures
            (*final(self), r) == chess_key(*old(self), key, ctx),
    {
        let st = ctx.game_state;
        let may_move = self.current_page != Pages::Lichess || match ctx.my_color {
            Some(c) => ctx.player_turn == c,
            None => false,
        };
        if up_key(key) && st == GameState::Playing {
            PageAction::CursorUp
        } else if down_key(key) && st == GameState::Playing {
            PageAction::CursorDown
        } else if right_key(key) {
            if st == GameState::Promotion {
                PageAction::PromotionRight
            } else if st == GameState::Playing && may_move {
                PageAction::CursorRight
            } else {
                PageAction::Nothing
            }
        } else if left_key(key) {
            if st == GameState::Promotion {
                PageAction::PromotionLeft
            } else if st == GameState::Playing {
                if may_move { PageAction::CursorLeft } else { PageAction::Nothing }
            } else if self.current_popup == Some(Popups::EndScreen) {
                self.current_popup = None;
                self.end_screen_dismissed = true;
                PageAction::Nothing
            } else {
                self.end_screen_dismissed = false;
                self.current_popup = Some(if ctx.in_puzzle { Popups::PuzzleEndScreen } else { Popups::EndScreen });
                PageAction::Nothing
            }
        } else if confirm_key(key) {
            PageAction::CellClick
        } else if key == MenuKey::Char('?') {
            self.toggle_help();
            PageAction::Nothing
        } else if key == MenuKey::Char('s') || key == MenuKey::Char('S') {
            PageAction::CycleSkin { save: true }
        } else if key == MenuKey::Char('m') {
            self.current_popup = Some(Popups::MoveInputSelection);
            PageAction::AskMove
        } else if key == MenuKey::Esc {
            PageAction::Unselect
        } else {
            fallback_action(key, ctx)
        }
    }

    /// Handles `key` on the current page, no popup being up (see
    /// `after_page_key`): changes the screen and returns what the
    /// application is to do.
    pub fn handle_page_input(&mut self, key: MenuKey, ctx: PageContext) -> (r: PageAction)
        requires
            old(self).current_page == Pages::OngoingGames && is_down(key) ==> old(self).menu_cursor < 255
                || ctx.ongoing_games <= 256,
        ensures
            (*final(self), r) == after_page_key(*old(self), key, ctx),
    {
        match self.current_page {
            Pages::Home => if up_key(key) {
                self.menu_cursor_up(HOME_MENU_ITEMS);
                PageAction::Nothing
            } else if down_key(key) {
                self.menu_cursor_down(HOME_MENU_ITEMS);
                PageAction::Nothing
            } else if left_key(key) && self.menu_cursor == 2 {
                PageAction::CycleSkinBack
            } else if right_key(key) && self.menu_cursor == 2 {
                PageAction::CycleSkin { save: true }
            } else if confirm_key(key) {
                PageAction::MenuSelect
            } else if key == MenuKey::Char('?') {
                self.toggle_help();
                PageAction::Nothing
            } else {
                fallback_action(key, ctx)
            },
            Pages::Solo => {
                let walk = !ctx.in_puzzle && ctx.game_state != GameState::Checkmate
                    && ctx.game_state != GameState::Draw;
                if key == MenuKey::Char('r') {
                    PageAction::Restart
                } else if key == MenuKey::Char('b') {
                    PageAction::ResetHome
                } else if key == MenuKey::Char('n') || key == MenuKey::Char('N') {
                    if walk { PageAction::HistoryNext } else { PageAction::Nothing }
                } else if key == MenuKey::Char('p') || key == MenuKey::Char('P') {
                    if walk { PageAction::HistoryPrevious } else { PageAction::Nothing }
                } else if (key == MenuKey::Char('t') || key == MenuKey::Char('T')) && ctx.in_puzzle
                    && self.current_popup.is_none() {
                    PageAction::PuzzleHint
                } else {
                    self.chess_input(key, ctx)
                }
            },
            Pages::Multiplayer | Pages::Lichess => if key == MenuKey::Char('b') {
                PageAction::ResetHome
            } else {
                self.chess_input(key, ctx)
            },
            Pages::LichessMenu => {
                let c = self.menu_cursor;
                if up_key(key) {
                    self.menu_cursor_up(LICHESS_MENU_ITEMS);
                    PageAction::Nothing
                } else if down_key(key) {
                    self.menu_cursor_down(LICHESS_MENU_ITEMS);
                    PageAction::Nothing
                } else if confirm_key(key) {
                    if c < 4 && !ctx.has_token {
                        self.current_popup = Some(Popups::EnterLichessToken);
                        PageAction::AskToken
                    } else if c == 0 {
                        self.menu_cursor = 0;
                        self.current_page = Pages::Lichess;
                        PageAction::SeekLichess
                    } else if c == 1 {
                        PageAction::StartPuzzle
                    } else if c == 2 {
                        PageAction::FetchOngoingGames
                    } else if c == 3 {
                        self.current_popup = Some(Popups::EnterGameCode);
                        PageAction::AskGameCode
                    } else if c == 4 {
                        PageAction::DisconnectLichess
                    } else {
                        PageAction::Nothing
                    }
                } else if key == MenuKey::Esc || key == MenuKey::Char('b') {
                    self.menu_cursor = 0;
                    self.current_page = Pages::Home;
                    PageAction::Nothing
                } else if key == MenuKey::Char('?') {
                    self.toggle_help();
                    PageAction::Nothing
                } else {
                    fallback_action(key, ctx)
                }
            },
            Pages::GameModeMenu => PageAction::GameModeMenu,
            Pages::OngoingGames => if up_key(key) {
                if self.menu_cursor > 0 {
                    self.menu_cursor -= 1;
                }
                PageAction::Nothing
            } else if down_key(key) {
                if (self.menu_cursor as usize) < ctx.ongoing_games.saturating_sub(1) {
                    self.menu_cursor += 1;
                }
                PageAction::Nothing
            } else if confirm_key(key) {
                PageAction::SelectOngoingGame
            } else if key == MenuKey::Char('r') || key == MenuKey::Char('R') {
                if (self.menu_cursor as usize) < ctx.ongoing_games {
                    self.current_popup = Some(Popups::ResignConfirmation);
                }
                PageAction::Nothing
            } else if key == MenuKey::Esc || key == MenuKey::Char('b') {
                self.menu_cursor = 0;
                self.current_page = Pages::LichessMenu;
                PageAction::Nothing
            } else if key == MenuKey::Char('?') {
                self.toggle_help();
                PageAction::Nothing
            } else {
                fallback_action(key, ctx)
            },
            Pages::Bot => if key == MenuKey::Char('r') {
                PageAction::Restart
            } else if key == MenuKey::Char('b') {
                PageAction::ResetHome
            } else {
                self.chess_input(key, ctx)
            },
            Pages::Credit => if confirm_key(key) || key == MenuKey::Esc {
                self.toggle_credit_popup();
                PageAction::Nothing
            } else {
                fallback_action(key, ctx)
            },
            _ => fallback_action(key, ctx),
        }
    }
}

/// What a key led to: a popup's action, with the text it submits, or a
/// page's action.
#[derive(Debug)]
pub enum KeyOutcome {
    /// The key went to the popup up.
    Popup(PopupAction, Option<String>),
    /// The key went to the page, no popup being up.
    Page(PageAction),
}

/// A key: to the popup when one is up (`after_popup_key`, `prompt` being
/// the text typed in it), to the page otherwise (`after_page_key`).
pub fn handle_key(
    screen: &mut PopupScreen,
    key: MenuKey,
    ctx: PageContext,
    has_opponent: bool,
    prompt: &str,
) -> (r: KeyOutcome)
    requires
        old(screen).ui.current_popup is None && old(screen).ui.current_page == Pages::OngoingGames && is_down(key)
            ==> old(screen).ui.menu_cursor < 255 || ctx.ongoing_games <= 256,
    ensures
        match old(screen).ui.current_popup {
            Some(p) => r matches KeyOutcome::Popup(a, t) && {
                &&& (*final(screen), a) == after_popup_key(*old(screen), p, key, has_opponent, prompt@)
                &&& match submitted_text(*old(screen), a, prompt@) {
                    Some(x) => t matches Some(u) && u@ == x,
                    None => t is None,
                }
            },
            None => r matches KeyOutcome::Page(a) && {
                &&& (final(screen).ui, a) == after_page_key(old(screen).ui, key, ctx)
                &&& *final(screen) == (PopupScreen { ui: final(screen).ui, ..*old(screen) })
            },
        },
{
    match screen.ui.current_popup {
        Some(p) => {
            let (a, t) = screen.handle_popup_input(p, key, has_opponent, prompt);
            KeyOutcome::Popup(a, t)
        },
        None => {
            let a = screen.ui.handle_page_input(key, ctx);
            KeyOutcome::Page(a)
        },
    }
}

} // verus!
