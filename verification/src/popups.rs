//! The keys of the popups: text prompts, confirmations, the end screens
//! and the message boxes.
//!
//! What a key changes on the screen is done here; what needs the network,
//! the engine or the text prompt is handed back to the application as a
//! `PopupAction`.

use vstd::prelude::*;
use crate::constants::{Pages, Popups};
use crate::menu::{MenuKey, is_confirm};
use crate::pieces::PieceColor;
use crate::state::UiState;
use crate::text::{chars_of, string_of, trim_chars, trimmed};

verus! {

/// What the application is to do after a key in a popup.
#[derive(Clone, Copy, Debug, PartialEq, Eq, Structural)]
pub enum PopupAction {
    /// Nothing more.
    Nothing,
    /// The key is for the keys every page shares.
    Fallback,
    /// Type the character into the prompt.
    PromptInsert(char),
    /// Delete the character before the prompt's cursor.
    PromptBackspace,
    /// Move the prompt's cursor left.
    PromptLeft,
    /// Move the prompt's cursor right.
    PromptRight,
    /// Submit the host address typed.
    SubmitHostIp,
    /// Stop waiting for an opponent to join.
    CancelHosting,
    /// Start the game again.
    Restart,
    /// Leave the game for the home page, resetting it.
    ResetHome,
    /// Start a new puzzle.
    StartPuzzle,
    /// Fetch the ongoing Lichess games again.
    FetchOngoingGames,
    /// Join the Lichess game whose code was typed.
    JoinGame,
    /// Save and check the Lichess token typed.
    SaveToken,
    /// Stop seeking a Lichess game.
    CancelSeek,
    /// Resign the game.
    ConfirmResign,
    /// Play the move typed.
    SubmitMove,
}

/// The part of the screen state the popups change.
#[derive(Debug)]
pub struct PopupScreen {
    /// The page, the popup, the menu cursor, the message, the end screen.
    pub ui: UiState,
    /// Whether the player hosts a networked game.
    pub hosting: Option<bool>,
    /// The color chosen for the game.
    pub selected_color: Option<PieceColor>,
    /// The time control of the game-mode form.
    pub clock_cursor: u32,
    /// The custom time of the game-mode form.
    pub custom_time_minutes: u32,
}

/// The screen with no popup; the rest as it was.
pub open spec fn hidden(s: PopupScreen) -> PopupScreen {
    PopupScreen { ui: UiState { current_popup: None, ..s.ui }, ..s }
}

/// The screen with no popup and on `page`.
pub open spec fn hidden_to(s: PopupScreen, page: Pages) -> PopupScreen {
    PopupScreen { ui: UiState { current_popup: None, current_page: page, ..s.ui }, ..s }
}

/// The screen with the popup and its message closed.
pub open spec fn closed(s: PopupScreen) -> PopupScreen {
    PopupScreen { ui: UiState { current_popup: None, popup_message: None, ..s.ui }, ..s }
}

/// The screen with the popup and its message closed and the page changed.
pub open spec fn closed_to(s: PopupScreen, page: Pages) -> PopupScreen {
    PopupScreen { ui: UiState { current_popup: None, popup_message: None, current_page: page, ..s.ui }, ..s }
}

/// Closing the popup and going home: the time control back to Rapid and
/// ten minutes, the menu cursor on the first entry.
pub open spec fn closed_home(s: PopupScreen) -> PopupScreen {
    PopupScreen {
        ui: UiState {
            current_popup: None,
            popup_message: None,
            current_page: Pages::Home,
            menu_cursor: 0,
            ..s.ui
        },
        clock_cursor: 3,
        custom_time_minutes: 10,
        ..s
    }
}

/// The page to go back to after a message box: the Lichess menu from the
/// Lichess pages (after a success on the ongoing games, that page stays and
/// the games are fetched again), home from a networked or engine game, or
/// from a local game that has an opponent; otherwise the same page.
pub open spec fn page_after_message(page: Pages, success: bool, has_opponent: bool) -> Pages {
    if page == Pages::Lichess || (page == Pages::OngoingGames && !success) {
        Pages::LichessMenu
    } else if page == Pages::Multiplayer || page == Pages::Bot {
        Pages::Home
    } else if page == Pages::Solo && has_opponent {
        Pages::Home
    } else {
        page
    }
}

/// The prompt edit a key makes, if it is one.
pub open spec fn prompt_edit(key: MenuKey) -> Option<PopupAction> {
    match key {
        MenuKey::Char(c) => Some(PopupAction::PromptInsert(c)),
        MenuKey::Backspace => Some(PopupAction::PromptBackspace),
        MenuKey::Left => Some(PopupAction::PromptLeft),
        MenuKey::Right => Some(PopupAction::PromptRight),
        _ => None,
    }
}

/// A key in a popup with a text prompt, other than Enter and Esc: a prompt
/// edit, or the shared keys.
pub open spec fn prompt_key(s: PopupScreen, key: MenuKey) -> (PopupScreen, PopupAction) {
    match prompt_edit(key) {
        Some(a) => (s, a),
        None => (s, PopupAction::Fallback),
    }
}

/// Whether the key is the letter typed in either case.
pub open spec fn is_letter(key: MenuKey, lower: char, upper: char) -> bool {
    key == MenuKey::Char(lower) || key == MenuKey::Char(upper)
}

/// Esc, Enter or space: the keys that dismiss a message.
pub open spec fn is_dismiss(key: MenuKey) -> bool {
    key == MenuKey::Esc || is_confirm(key)
}

/// A key in `popup` (`prompt` being the text typed in the prompt, for the
/// popups that have one): the screen after it and what the application is
/// to do.
pub open spec fn after_popup_key(
    s: PopupScreen,
    popup: Popups,
    key: MenuKey,
    has_opponent: bool,
    prompt: Seq<char>,
) -> (PopupScreen, PopupAction) {
    let fallback = (s, PopupAction::Fallback);
    match popup {
        Popups::EnterHostIP => if key == MenuKey::Enter {
            (hidden(s), PopupAction::SubmitHostIp)
        } else if key == MenuKey::Esc {
            if s.ui.current_page == Pages::Multiplayer {
                (PopupScreen {
                    ui: UiState { current_popup: None, current_page: Pages::Home, menu_cursor: 0, ..s.ui },
                    hosting: None,
                    selected_color: None,
                    ..s
                }, PopupAction::Nothing)
            } else {
                (hidden_to(s, Pages::Home), PopupAction::Nothing)
            }
        } else {
            prompt_key(s, key)
        },
        Popups::Help => if key == MenuKey::Char('?') || key == MenuKey::Esc {
            (if s.ui.current_popup == Some(Popups::Help) {
                closed(s)
            } else {
                PopupScreen { ui: UiState { current_popup: Some(Popups::Help), ..s.ui }, ..s }
            }, PopupAction::Nothing)
        } else {
            fallback
        },
        Popups::EnginePathError => if is_dismiss(key) {
            (closed_home(s), PopupAction::Nothing)
        } else {
            fallback
        },
        Popups::WaitingForOpponentToJoin => if is_dismiss(key) {
            (closed_home(s), PopupAction::CancelHosting)
        } else {
            fallback
        },
        Popups::EndScreen => if is_letter(key, 'h', 'H') || key == MenuKey::Esc {
            (PopupScreen { ui: UiState { current_popup: None, end_screen_dismissed: true, ..s.ui }, ..s },
                PopupAction::Nothing)
        } else if is_letter(key, 'r', 'R') {
            if has_opponent { (s, PopupAction::Nothing) } else { (hidden(s), PopupAction::Restart) }
        } else if is_letter(key, 'b', 'B') {
            (s, PopupAction::ResetHome)
        } else {
            fallback
        },
        Popups::PuzzleEndScreen => if is_letter(key, 'h', 'H') || key == MenuKey::Esc {
            (hidden(s), PopupAction::Nothing)
        } else if is_letter(key, 'n', 'N') {
            (hidden(s), PopupAction::StartPuzzle)
        } else if is_letter(key, 'b', 'B') {
            (s, PopupAction::ResetHome)
        } else {
            fallback
        },
        Popups::Error => if is_dismiss(key) {
            (closed_to(s, page_after_message(s.ui.current_page, false, has_opponent)), PopupAction::Nothing)
        } else {
            fallback
        },
        Popups::Success => if is_dismiss(key) {
            (closed_to(s, page_after_message(s.ui.current_page, true, has_opponent)),
                if s.ui.current_page == Pages::OngoingGames {
                    PopupAction::FetchOngoingGames
                } else {
                    PopupAction::Nothing
                })
        } else {
            fallback
        },
        Popups::EnterGameCode => if key == MenuKey::Enter {
            if prompt.len() > 0 {
                (PopupScreen { ui: UiState { current_page: Pages::Lichess, ..s.ui }, ..s }, PopupAction::JoinGame)
            } else {
                (hidden_to(s, Pages::LichessMenu), PopupAction::Nothing)
            }
        } else if key == MenuKey::Esc {
            (hidden_to(s, Pages::LichessMenu), PopupAction::Nothing)
        } else {
            prompt_key(s, key)
        },
        Popups::EnterLichessToken => if key == MenuKey::Enter {
            if trimmed(prompt).len() > 0 { (s, PopupAction::SaveToken) } else { (hidden(s), PopupAction::Nothing) }
        } else if key == MenuKey::Esc {
            (hidden(s), PopupAction::Nothing)
        } else {
            prompt_key(s, key)
        },
        Popups::SeekingLichessGame => if key == MenuKey::Esc {
            (hidden_to(s, Pages::Home), PopupAction::CancelSeek)
        } else {
            fallback
        },
        Popups::ResignConfirmation => if is_letter(key, 'y', 'Y') || key == MenuKey::Enter {
            (s, PopupAction::ConfirmResign)
        } else if is_letter(key, 'n', 'N') || key == MenuKey::Esc {
            (hidden(s), PopupAction::Nothing)
        } else {
            fallback
        },
        Popups::MoveInputSelection => if key == MenuKey::Enter {
            (hidden(s), if trimmed(prompt).len() > 0 { PopupAction::SubmitMove } else { PopupAction::Nothing })
        } else if key == MenuKey::Esc {
            (hidden(s), PopupAction::Nothing)
        } else {
            prompt_key(s, key)
        },
        _ => fallback,
    }
}

/// The text the action submits: the host address to keep (typed on the
/// multiplayer page), the game code as typed, the token or the move with
/// the whitespace around it taken off.
pub open spec fn submitted_text(s: PopupScreen, action: PopupAction, prompt: Seq<char>) -> Option<Seq<char>> {
    match action {
        PopupAction::SubmitHostIp => if s.ui.current_page == Pages::Multiplayer { Some(prompt) } else { None },
        PopupAction::JoinGame => Some(prompt),
        PopupAction::SaveToken => Some(trimmed(prompt)),
        PopupAction::SubmitMove => Some(trimmed(prompt)),
        _ => None,
    }
}

impl PopupScreen {
    /// Handles `key` in `popup`: changes the screen and returns what the
    /// application is to do, with the text to submit where there is one.
    /// `prompt` is the text typed in the popup's prompt; `has_opponent`
    /// says whether a networked opponent is connected.
    pub fn handle_popup_input(&mut self, popup: Popups, key: MenuKey, has_opponent: bool, prompt: &str)
        -> (r: (PopupAction, Option<String>))
        ensures
            (*final(self), r.0) == after_popup_key(*old(self), popup, key, has_opponent, prompt@),
            match submitted_text(*old(self), r.0, prompt@) {
                Some(t) => r.1 matches Some(u) && u@ == t,
                None => r.1 is None,
            },
    {
        let page = self.ui.current_page;
        match popup {
            Popups::EnterHostIP => match key {
                MenuKey::Enter => {
                    self.ui.current_popup = None;
                    let kept = if page == Pages::Multiplayer { Some(String::from_str(prompt)) } else { None };
                    (PopupAction::SubmitHostIp, kept)
                },
                MenuKey::Esc => {
                    self.ui.current_popup = None;
                    if page == Pages::Multiplayer {
                        self.hosting = None;
                        self.selected_color = None;
                        self.ui.menu_cursor = 0;
                    }
                    self.ui.current_page = Pages::Home;
                    (PopupAction::Nothing, None)
                },
                _ => (prompt_action(key), None),
            },
            Popups::Help => if key == MenuKey::Char('?') || key == MenuKey::Esc {
                if self.ui.current_popup == Some(Popups::Help) {
                    self.ui.current_popup = None;
                    self.ui.popup_message = None;
                } else {
                    self.ui.current_popup = Some(Popups::Help);
                }
                (PopupAction::Nothing, None)
            } else {
                (PopupAction::Fallback, None)
            },
            Popups::EnginePathError => if dismisses(key) {
                self.close_and_go_home();
                (PopupAction::Nothing, None)
            } else {
                (PopupAction::Fallback, None)
            },
            Popups::WaitingForOpponentToJoin => if dismisses(key) {
                self.close_and_go_home();
                (PopupAction::CancelHosting, None)
            } else {
                (PopupAction::Fallback, None)
            },
            Popups::EndScreen => if key == MenuKey::Char('h') || key == MenuKey::Char('H') || key == MenuKey::Esc {
                self.ui.current_popup = None;
                self.ui.end_screen_dismissed = true;
                (PopupAction::Nothing, None)
            } else if key == MenuKey::Char('r') || key == MenuKey::Char('R') {
                if has_opponent {
                    (PopupAction::Nothing, None)
                } else {
                    self.ui.current_popup = None;
                    (PopupAction::Restart, None)
                }
            } else if key == MenuKey::Char('b') || key == MenuKey::Char('B') {
                (PopupAction::ResetHome, None)
            } else {
                (PopupAction::Fallback, None)
            },
            Popups::PuzzleEndScreen => if key == MenuKey::Char('h') || key == MenuKey::Char('H') || key == MenuKey::Esc {
                self.ui.current_popup = None;
                (PopupAction::Nothing, None)
            } else if key == MenuKey::Char('n') || key == MenuKey::Char('N') {
                self.ui.current_popup = None;
                (PopupAction::StartPuzzle, None)
            } else if key == MenuKey::Char('b') || key == MenuKey::Char('B') {
                (PopupAction::ResetHome, None)
            } else {
                (PopupAction::Fallback, None)
            },
            Popups::Error | Popups::Success => if dismisses(key) {
                let success = popup == Popups::Success;
                self.ui.current_popup = None;
                self.ui.popup_message = None;
                self.ui.current_page = message_return_page(page, success, has_opponent);
                if success && page == Pages::OngoingGames {
                    (PopupAction::FetchOngoingGames, None)
                } else {
                    (PopupAction::Nothing, None)
                }
            } else {
                (PopupAction::Fallback, None)
            },
            Popups::EnterGameCode => match key {
                MenuKey::Enter => if prompt.unicode_len() > 0 {
                    self.ui.current_page = Pages::Lichess;
                    (PopupAction::JoinGame, Some(String::from_str(prompt)))
                } else {
                    self.ui.current_popup = None;
                    self.ui.current_page = Pages::LichessMenu;
                    (PopupAction::Nothing, None)
                },
                MenuKey::Esc => {
                    self.ui.current_popup = None;
                    self.ui.current_page = Pages::LichessMenu;
                    (PopupAction::Nothing, None)
                },
                _ => (prompt_action(key), None),
            },
            Popups::EnterLichessToken => match key {
                MenuKey::Enter => {
                    let token = trim_chars(&chars_of(prompt));
                    if token.len() > 0 {
                        (PopupAction::SaveToken, Some(string_of(&token)))
                    } else {
                        self.ui.current_popup = None;
                        (PopupAction::Nothing, None)
                    }
                },
                MenuKey::Esc => {
                    self.ui.current_popup = None;
                    (PopupAction::Nothing, None)
                },
                _ => (prompt_action(key), None),
            },
            Popups::SeekingLichessGame => if key == MenuKey::Esc {
                self.ui.current_popup = None;
                self.ui.current_page = Pages::Home;
                (PopupAction::CancelSeek, None)
            } else {
                (PopupAction::Fallback, None)
            },
            Popups::ResignConfirmation => if key == MenuKey::Char('y') || key == MenuKey::Char('Y') || key == MenuKey::Enter {
                (PopupAction::ConfirmResign, None)
            } else if key == MenuKey::Char('n') || key == MenuKey::Char('N') || key == MenuKey::Esc {
                self.ui.current_popup = None;
                (PopupAction::Nothing, None)
            } else {
                (PopupAction::Fallback, None)
            },
            Popups::MoveInputSelection => match key {
                MenuKey::Enter => {
                    self.ui.current_popup = None;
                    let mv = trim_chars(&chars_of(prompt));
                    if mv.len() > 0 {
                        (PopupAction::SubmitMove, Some(string_of(&mv)))
                    } else {
                        (PopupAction::Nothing, None)
                    }
                },
                MenuKey::Esc => {
                    self.ui.current_popup = None;
                    (PopupAction::Nothing, None)
                },
                _ => (prompt_action(key), None),
            },
            _ => (PopupAction::Fallback, None),
        }
    }

    /// Closes the popup and goes home, with the time control of the
    /// game-mode form back to its default.
    fn close_and_go_home(&mut self)
        ensures
            *final(self) == closed_home(*old(self)),
    {
        self.ui.current_popup = None;
        self.ui.popup_message = None;
        self.clock_cursor = 3;
        self.custom_time_minutes = 10;
        self.ui.current_page = Pages::Home;
        self.ui.menu_cursor = 0;
    }
}

/// Whether the key dismisses a message: Esc, Enter or space.
fn dismisses(key: MenuKey) -> (r: bool)
    ensures
        r == is_dismiss(key),
{
    key == MenuKey::Esc || key == MenuKey::Enter || key == MenuKey::Char(' ')
}

/// The action of a key in a prompt other than Enter and Esc.
fn prompt_action(key: MenuKey) -> (r: PopupAction)
    requires
        key != MenuKey::Enter,
        key != MenuKey::Esc,
    ensures
        (match prompt_edit(key) {
            Some(a) => r == a,
            None => r == PopupAction::Fallback,
        }),
{
    match key {
        MenuKey::Char(c) => PopupAction::PromptInsert(c),
        MenuKey::Backspace => PopupAction::PromptBackspace,
        MenuKey::Left => PopupAction::PromptLeft,
        MenuKey::Right => PopupAction::PromptRight,
        _ => PopupAction::Fallback,
    }
}

/// The page to go back to after a message box.
pub fn message_return_page(page: Pages, success: bool, has_opponent: bool) -> (r: Pages)
    ensures
        r == page_after_message(page, success, has_opponent),
{
    if page == Pages::Lichess || (page == Pages::OngoingGames && !success) {
        Pages::LichessMenu
    } else if page == Pages::Multiplayer || page == Pages::Bot {
        Pages::Home
    } else if page == Pages::Solo && has_opponent {
        Pages::Home
    } else {
        page
    }
}

} // verus!
