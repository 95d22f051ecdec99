//! The keys of the game-mode menu: choosing local, networked or engine
//! play, and filling in its form (time control, custom time, host or join,
//! color, engine depth and difficulty).
//!
//! The application reads the key, hands it over as a `MenuKey`, and carries
//! out what comes back (saving the settings, starting the clock, the keys
//! every page shares).

use vstd::prelude::*;
use crate::constants::{BOT_DIFFICULTY_COUNT, Pages, Popups, TIME_CONTROL_CUSTOM_INDEX};
use crate::pieces::PieceColor;
use crate::state::{AvailableGameMode, GameModeState, time_control_seconds};

verus! {

/// A key as the menus read it.
#[derive(Clone, Copy, Debug, PartialEq, Eq, Structural)]
pub enum MenuKey {
    Up,
    Down,
    Left,
    Right,
    Enter,
    Esc,
    Backspace,
    Char(char),
    Other,
}

/// Up, or `k`.
pub open spec fn is_up(k: MenuKey) -> bool {
    k == MenuKey::Up || k == MenuKey::Char('k')
}

/// Down, or `j`.
pub open spec fn is_down(k: MenuKey) -> bool {
    k == MenuKey::Down || k == MenuKey::Char('j')
}

/// Left, or `h`.
pub open spec fn is_left(k: MenuKey) -> bool {
    k == MenuKey::Left || k == MenuKey::Char('h')
}

/// Right, or `l`.
pub open spec fn is_right(k: MenuKey) -> bool {
    k == MenuKey::Right || k == MenuKey::Char('l')
}

/// Enter, or space.
pub open spec fn is_confirm(k: MenuKey) -> bool {
    k == MenuKey::Enter || k == MenuKey::Char(' ')
}

/// What the application is to do after a key of the game-mode menu.
#[derive(Clone, Copy, Debug, PartialEq, Eq, Structural)]
pub enum MenuAction {
    /// Nothing more.
    Nothing,
    /// Save the settings (the engine depth or difficulty changed).
    SaveConfig,
    /// A local game starts, with a clock of that many seconds, if any.
    StartLocalGame { clock_seconds: Option<u32> },
    /// Toggle the help popup.
    ToggleHelp,
    /// The key is for the keys every page shares.
    Fallback,
}

/// The game-mode menu: the page and its cursor, the form, and the settings
/// it edits.
#[derive(Debug)]
pub struct GameModeMenu {
    /// The cursor over the three game modes.
    pub menu_cursor: u8,
    /// The page shown.
    pub current_page: Pages,
    /// The form.
    pub form: GameModeState,
    /// Whether the player hosts a networked game.
    pub hosting: Option<bool>,
    /// The engine's search depth.
    pub bot_depth: u8,
    /// The engine's difficulty preset.
    pub bot_difficulty: Option<u8>,
}

/// The difficulty before `d`: full strength, then Magnus down to Easy.
pub open spec fn difficulty_before(d: Option<u8>) -> Option<u8> {
    match d {
        None => Some((BOT_DIFFICULTY_COUNT - 1) as u8),
        Some(i) => if i == 0 { None } else { Some((i - 1) as u8) },
    }
}

/// The difficulty after `d`: Easy up to Magnus, then full strength.
pub open spec fn difficulty_after(d: Option<u8>) -> Option<u8> {
    match d {
        None => Some(0u8),
        Some(i) => if i + 1 >= BOT_DIFFICULTY_COUNT { None } else { Some((i + 1) as u8) },
    }
}

/// The game mode at a menu index.
pub open spec fn mode_at(i: u8) -> AvailableGameMode {
    if i == 0 {
        AvailableGameMode::Local
    } else if i == 1 {
        AvailableGameMode::Multiplayer
    } else {
        AvailableGameMode::Bot
    }
}

impl GameModeMenu {
    /// The menu with its form closed and the form's fields back to their
    /// start: cursor 0, no mode chosen.
    pub open spec fn form_closed(&self, after: GameModeMenu) -> bool {
        &&& after.form.selection is None
        &&& after.form.form_cursor == 0
        &&& !after.form.form_active
    }

    /// Whether `after` keeps the fields of `self` that a key does not name.
    pub open spec fn same_apart_from_form(&self, after: GameModeMenu) -> bool {
        &&& after.form.clock_cursor == self.form.clock_cursor
        &&& after.form.custom_time_minutes == self.form.custom_time_minutes
        &&& after.form.is_random_color == self.form.is_random_color
        &&& after.form.selected_color == self.form.selected_color
        &&& after.hosting == self.hosting
        &&& after.bot_depth == self.bot_depth
        &&& after.bot_difficulty == self.bot_difficulty
    }
}

/// The form after Left on field `f` in mode `mode`: the previous time
/// control, a minute less of custom time (not below 1), Host, White, a
/// shallower engine (not below 1) or the previous difficulty. Whether the
/// settings are to be saved.
pub open spec fn form_left(m: GameModeMenu, mode: u8) -> (GameModeMenu, bool) {
    let f = m.form.form_cursor;
    let custom = m.form.clock_cursor == TIME_CONTROL_CUSTOM_INDEX;
    let prev_clock = GameModeMenu {
        form: GameModeState { clock_cursor: if m.form.clock_cursor > 0 { (m.form.clock_cursor - 1) as u32 } else { 0 }, ..m.form },
        ..m
    };
    let less_time = GameModeMenu {
        form: GameModeState { custom_time_minutes: if m.form.custom_time_minutes > 1 { (m.form.custom_time_minutes - 1) as u32 } else { m.form.custom_time_minutes }, ..m.form },
        ..m
    };
    let white = GameModeMenu { form: GameModeState { selected_color: Some(PieceColor::White), ..m.form }, ..m };
    let shallower = (GameModeMenu { bot_depth: if m.bot_depth > 1 { (m.bot_depth - 1) as u8 } else { m.bot_depth }, ..m }, m.bot_depth > 1);
    let easier = (GameModeMenu { bot_difficulty: difficulty_before(m.bot_difficulty), ..m }, true);
    if mode == 0 {
        if f == 0 { (prev_clock, false) } else if f == 1 && custom { (less_time, false) } else { (m, false) }
    } else if mode == 1 {
        if f == 0 {
            (GameModeMenu { hosting: Some(true), ..m }, false)
        } else if f == 1 && m.hosting == Some(true) {
            (white, false)
        } else {
            (m, false)
        }
    } else {
        if f == 0 {
            (prev_clock, false)
        } else if f == 1 {
            if custom { (less_time, false) } else { (white, false) }
        } else if f == 2 {
            if custom { (white, false) } else { shallower }
        } else if f == 3 {
            if custom { shallower } else { easier }
        } else if f == 4 {
            easier
        } else {
            (m, false)
        }
    }
}

/// The form after Right on field `f` in mode `mode`: the next time control
/// (up to Custom), a minute more of custom time (up to 120), Join, Black,
/// a deeper engine (up to 20) or the next difficulty. Whether the settings
/// are to be saved.
pub open spec fn form_right(m: GameModeMenu, mode: u8) -> (GameModeMenu, bool) {
    let f = m.form.form_cursor;
    let custom = m.form.clock_cursor == TIME_CONTROL_CUSTOM_INDEX;
    let next_clock = GameModeMenu {
        form: GameModeState { clock_cursor: if m.form.clock_cursor < TIME_CONTROL_CUSTOM_INDEX { (m.form.clock_cursor + 1) as u32 } else { m.form.clock_cursor }, ..m.form },
        ..m
    };
    let more_time = GameModeMenu {
        form: GameModeState { custom_time_minutes: if m.form.custom_time_minutes < 120 { (m.form.custom_time_minutes + 1) as u32 } else { m.form.custom_time_minutes }, ..m.form },
        ..m
    };
    let black = GameModeMenu { form: GameModeState { selected_color: Some(PieceColor::Black), ..m.form }, ..m };
    let deeper = (GameModeMenu { bot_depth: if m.bot_depth < 20 { (m.bot_depth + 1) as u8 } else { m.bot_depth }, ..m }, m.bot_depth < 20);
    let harder = (GameModeMenu { bot_difficulty: difficulty_after(m.bot_difficulty), ..m }, true);
    if mode == 0 {
        if f == 0 { (next_clock, false) } else if f == 1 && custom { (more_time, false) } else { (m, false) }
    } else if mode == 1 {
        if f == 0 {
            (GameModeMenu { hosting: Some(false), ..m }, false)
        } else if f == 1 && m.hosting == Some(true) {
            (black, false)
        } else {
            (m, false)
        }
    } else {
        if f == 0 {
            (next_clock, false)
        } else if f == 1 {
            if custom { (more_time, false) } else { (black, false) }
        } else if f == 2 {
            if custom { (black, false) } else { deeper }
        } else if f == 3 {
            if custom { deeper } else { harder }
        } else if f == 4 {
            harder
        } else {
            (m, false)
        }
    }
}

/// The menu after leaving the form to start a game on `page`.
pub open spec fn started(m: GameModeMenu, page: Pages) -> GameModeMenu {
    GameModeMenu {
        current_page: page,
        form: GameModeState { selection: None, form_cursor: 0, form_active: false, ..m.form },
        ..m
    }
}

/// The form with its cursor on field `f`.
pub open spec fn at_field(m: GameModeMenu, f: u8) -> GameModeMenu {
    GameModeMenu { form: GameModeState { form_cursor: f, ..m.form }, ..m }
}

/// The form with White chosen when no color was.
pub open spec fn white_by_default(m: GameModeMenu) -> GameModeMenu {
    if m.form.selected_color is None {
        GameModeMenu { form: GameModeState { selected_color: Some(PieceColor::White), ..m.form }, ..m }
    } else {
        m
    }
}

/// The form after Enter on field `f` in mode `mode`: the next field, or
/// the game starts once the last field is confirmed (a local game with its
/// clock, a networked game, an engine game). A networked host chooses a
/// color (White by default); joining starts at once.
pub open spec fn form_confirm(m: GameModeMenu, mode: u8) -> (GameModeMenu, MenuAction) {
    let f = m.form.form_cursor;
    let custom = m.form.clock_cursor == TIME_CONTROL_CUSTOM_INDEX;
    let local_start = (
        started(m, Pages::Solo),
        MenuAction::StartLocalGame {
            clock_seconds: match time_control_seconds(m.form.clock_cursor, m.form.custom_time_minutes) {
                Some(s) => Some(s as u32),
                None => None,
            },
        },
    );
    if mode == 0 {
        if f == 0 {
            if custom { (at_field(m, 1), MenuAction::Nothing) } else { local_start }
        } else if f == 1 {
            local_start
        } else {
            (m, MenuAction::Nothing)
        }
    } else if mode == 1 {
        if f == 0 {
            let h = if m.hosting is None { GameModeMenu { hosting: Some(true), ..m } } else { m };
            if h.hosting == Some(true) {
                (at_field(h, 1), MenuAction::Nothing)
            } else {
                (started(h, Pages::Multiplayer), MenuAction::Nothing)
            }
        } else if f == 1 {
            (started(white_by_default(m), Pages::Multiplayer), MenuAction::Nothing)
        } else {
            (m, MenuAction::Nothing)
        }
    } else {
        if f == 0 {
            (at_field(m, 1), MenuAction::Nothing)
        } else if f == 1 {
            if custom { (at_field(m, 2), MenuAction::Nothing) } else { (at_field(white_by_default(m), 2), MenuAction::Nothing) }
        } else if f == 2 {
            if custom { (at_field(white_by_default(m), 3), MenuAction::Nothing) } else { (at_field(m, 3), MenuAction::Nothing) }
        } else if f == 3 {
            if custom { (at_field(m, 4), MenuAction::Nothing) } else { (started(m, Pages::Bot), MenuAction::Nothing) }
        } else if f == 4 {
            (started(m, Pages::Bot), MenuAction::Nothing)
        } else {
            (m, MenuAction::Nothing)
        }
    }
}

/// A key of the game-mode menu (a cursor past the third mode counts as the
/// first). In the form: Esc closes it; Up and Down do nothing; Left, Right
/// and Enter edit it (`form_left`, `form_right`, `form_confirm`). In the
/// menu: Up and Down move round the three modes, Left and Right move
/// without wrapping, Enter opens the form of the mode (a local game gets
/// Rapid back when its time control is out of range; the others forget
/// host and color), Esc or `b` goes home with the form reset, `?` toggles
/// help. Other keys go to the keys every page shares.
pub open spec fn after_game_mode_key(m0: GameModeMenu, key: MenuKey) -> (GameModeMenu, MenuAction) {
    let m = if m0.menu_cursor > 2 { GameModeMenu { menu_cursor: 0, ..m0 } } else { m0 };
    let mode = m.menu_cursor;
    if m.form.form_active {
        if key == MenuKey::Esc {
            (GameModeMenu { form: GameModeState { form_active: false, form_cursor: 0, ..m.form }, ..m }, MenuAction::Nothing)
        } else if is_up(key) || is_down(key) {
            (m, MenuAction::Nothing)
        } else if is_left(key) {
            let (n, save) = form_left(m, mode);
            (n, if save { MenuAction::SaveConfig } else { MenuAction::Nothing })
        } else if is_right(key) {
            let (n, save) = form_right(m, mode);
            (n, if save { MenuAction::SaveConfig } else { MenuAction::Nothing })
        } else if is_confirm(key) {
            form_confirm(m, mode)
        } else {
            (m, MenuAction::Fallback)
        }
    } else {
        if is_up(key) {
            (GameModeMenu { menu_cursor: if m.menu_cursor > 0 { (m.menu_cursor - 1) as u8 } else { 2 }, ..m }, MenuAction::Nothing)
        } else if is_down(key) {
            (GameModeMenu { menu_cursor: if m.menu_cursor < 2 { (m.menu_cursor + 1) as u8 } else { 0 }, ..m }, MenuAction::Nothing)
        } else if is_left(key) {
            (GameModeMenu { menu_cursor: if m.menu_cursor > 0 { (m.menu_cursor - 1) as u8 } else { 0 }, ..m }, MenuAction::Nothing)
        } else if is_right(key) {
            (GameModeMenu { menu_cursor: if m.menu_cursor < 2 { (m.menu_cursor + 1) as u8 } else { 2 }, ..m }, MenuAction::Nothing)
        } else if is_confirm(key) {
            let opened = GameModeState { form_active: true, form_cursor: 0, selection: Some(mode_at(mode)), ..m.form };
            if mode == 0 {
                (GameModeMenu {
                    form: GameModeState { clock_cursor: if m.form.clock_cursor > TIME_CONTROL_CUSTOM_INDEX { 3 } else { m.form.clock_cursor }, ..opened },
                    ..m
                }, MenuAction::Nothing)
            } else {
                (GameModeMenu { form: GameModeState { selected_color: None, ..opened }, hosting: None, ..m }, MenuAction::Nothing)
            }
        } else if key == MenuKey::Esc || key == MenuKey::Char('b') {
            (GameModeMenu {
                menu_cursor: 0,
                current_page: Pages::Home,
                form: GameModeState {
                    selection: None,
                    form_cursor: 0,
                    form_active: false,
                    clock_cursor: 3,
                    custom_time_minutes: 10,
                    ..m.form
                },
                ..m
            }, MenuAction::Nothing)
        } else if key == MenuKey::Char('?') {
            (m, MenuAction::ToggleHelp)
        } else {
            (m, MenuAction::Fallback)
        }
    }
}

impl GameModeMenu {
    /// Handles a key of the game-mode menu (see `after_game_mode_key`).
    pub fn handle_game_mode_menu_page_events(&mut self, key: MenuKey) -> (r: MenuAction)
        requires
            old(self).form.clock_cursor == TIME_CONTROL_CUSTOM_INDEX ==> old(self).form.custom_time_minutes * 60
                <= u32::MAX,
        ensures
            (*final(self), r) == after_game_mode_key(*old(self), key),
    {
        if self.menu_cursor > 2 {
            self.menu_cursor = 0;
        }
        let game_mode = self.menu_cursor;
        let custom = self.form.clock_cursor == TIME_CONTROL_CUSTOM_INDEX as u32;
        let f = self.form.form_cursor;
        let up = key == MenuKey::Up || key == MenuKey::Char('k');
        let down = key == MenuKey::Down || key == MenuKey::Char('j');
        let left = key == MenuKey::Left || key == MenuKey::Char('h');
        let right = key == MenuKey::Right || key == MenuKey::Char('l');
        let confirm = key == MenuKey::Enter || key == MenuKey::Char(' ');
        if self.form.form_active {
            if key == MenuKey::Esc {
                self.form.form_active = false;
                self.form.form_cursor = 0;
                MenuAction::Nothing
            } else if up || down {
                MenuAction::Nothing
            } else if left {
                let mut save = false;
                if game_mode == 0 {
                    if f == 0 {
                        if self.form.clock_cursor > 0 {
                            self.form.clock_cursor = self.form.clock_cursor - 1;
                        }
                    } else if f == 1 && custom {
                        if self.form.custom_time_minutes > 1 {
                            self.form.custom_time_minutes = self.form.custom_time_minutes - 1;
                        }
                    }
                } else if game_mode == 1 {
                    if f == 0 {
                        self.hosting = Some(true);
                    } else if f == 1 && self.hosting == Some(true) {
                        self.form.selected_color = Some(PieceColor::White);
                    }
                } else {
                    if f == 0 {
                        if self.form.clock_cursor > 0 {
                            self.form.clock_cursor = self.form.clock_cursor - 1;
                        }
                    } else if f == 1 {
                        if custom {
                            if self.form.custom_time_minutes > 1 {
                                self.form.custom_time_minutes = self.form.custom_time_minutes - 1;
                            }
                        } else {
                            self.form.selected_color = Some(PieceColor::White);
                        }
                    } else if (f == 2 && !custom) || (f == 3 && custom) {
                        if self.bot_depth > 1 {
                            self.bot_depth = self.bot_depth - 1;
                            save = true;
                        }
                    } else if f == 2 {
                        self.form.selected_color = Some(PieceColor::White);
                    } else if f == 3 || f == 4 {
                        self.bot_difficulty = match self.bot_difficulty {
                            None => Some((BOT_DIFFICULTY_COUNT - 1) as u8),
                            Some(i) => if i == 0 { None } else { Some(i - 1) },
                        };
                        save = true;
                    }
                }
                if save { MenuAction::SaveConfig } else { MenuAction::Nothing }
            } else if right {
                let mut save = false;
                if game_mode == 0 {
                    if f == 0 {
                        if self.form.clock_cursor < TIME_CONTROL_CUSTOM_INDEX as u32 {
                            self.form.clock_cursor = self.form.clock_cursor + 1;
                        }
                    } else if f == 1 && custom {
                        if self.form.custom_time_minutes < 120 {
                            self.form.custom_time_minutes = self.form.custom_time_minutes + 1;
                        }
                    }
                } else if game_mode == 1 {
                    if f == 0 {
                        self.hosting = Some(false);
                    } else if f == 1 && self.hosting == Some(true) {
                        self.form.selected_color = Some(PieceColor::Black);
                    }
                } else {
                    if f == 0 {
                        if self.form.clock_cursor < TIME_CONTROL_CUSTOM_INDEX as u32 {
                            self.form.clock_cursor = self.form.clock_cursor + 1;
                        }
                    } else if f == 1 {
                        if custom {
                            if self.form.custom_time_minutes < 120 {
                                self.form.custom_time_minutes = self.form.custom_time_minutes + 1;
                            }
                        } else {
                            self.form.selected_color = Some(PieceColor::Black);
                        }
                    } else if (f == 2 && !custom) || (f == 3 && custom) {
                        if self.bot_depth < 20 {
                            self.bot_depth = self.bot_depth + 1;
                            save = true;
                        }
                    } else if f == 2 {
                        self.form.selected_color = Some(PieceColor::Black);
                    } else if f == 3 || f == 4 {
                        self.bot_difficulty = match self.bot_difficulty {
                            None => Some(0),
                            Some(i) => if i as usize + 1 >= BOT_DIFFICULTY_COUNT { None } else { Some(i + 1) },
                        };
                        save = true;
                    }
                }
                if save { MenuAction::SaveConfig } else { MenuAction::Nothing }
            } else if confirm {
                if game_mode == 0 {
                    if (f == 0 && !custom) || f == 1 {
                        let clock_seconds = self.form.get_time_control_seconds();
                        self.current_page = Pages::Solo;
                        self.form.selection = None;
                        self.form.form_cursor = 0;
                        self.form.form_active = false;
                        MenuAction::StartLocalGame { clock_seconds }
                    } else {
                        if f == 0 {
                            self.form.form_cursor = 1;
                        }
                        MenuAction::Nothing
                    }
                } else if game_mode == 1 {
                    if f == 0 {
                        if self.hosting.is_none() {
                            self.hosting = Some(true);
                        }
                        if self.hosting == Some(true) {
                            self.form.form_cursor = 1;
                        } else {
                            self.current_page = Pages::Multiplayer;
                            self.form.selection = None;
                            self.form.form_cursor = 0;
                            self.form.form_active = false;
                        }
                    } else if f == 1 {
                        if self.form.selected_color.is_none() {
                            self.form.selected_color = Some(PieceColor::White);
                        }
                        self.current_page = Pages::Multiplayer;
                        self.form.selection = None;
                        self.form.form_cursor = 0;
                        self.form.form_active = false;
                    }
                    MenuAction::Nothing
                } else {
                    if f == 0 {
                        self.form.form_cursor = 1;
                    } else if f == 1 {
                        if !custom && self.form.selected_color.is_none() {
                            self.form.selected_color = Some(PieceColor::White);
                        }
                        self.form.form_cursor = 2;
                    } else if f == 2 {
                        if custom && self.form.selected_color.is_none() {
                            self.form.selected_color = Some(PieceColor::White);
                        }
                        self.form.form_cursor = 3;
                    } else if f == 3 && custom {
                        self.form.form_cursor = 4;
                    } else if f == 3 || f == 4 {
                        self.current_page = Pages::Bot;
                        self.form.selection = None;
                        self.form.form_cursor = 0;
                        self.form.form_active = false;
                    }
                    MenuAction::Nothing
                }
            } else {
                MenuAction::Fallback
            }
        } else {
            if up {
                self.menu_cursor = if self.menu_cursor > 0 { self.menu_cursor - 1 } else { 2 };
                MenuAction::Nothing
            } else if down {
                self.menu_cursor = if self.menu_cursor < 2 { self.menu_cursor + 1 } else { 0 };
                MenuAction::Nothing
            } else if left {
                if self.menu_cursor > 0 {
                    self.menu_cursor = self.menu_cursor - 1;
                }
                MenuAction::Nothing
            } else if right {
                if self.menu_cursor < 2 {
                    self.menu_cursor = self.menu_cursor + 1;
                }
                MenuAction::Nothing
            } else if confirm {
                self.form.form_active = true;
                self.form.form_cursor = 0;
                self.form.selection = Some(
                    if game_mode == 0 {
                        AvailableGameMode::Local
                    } else if game_mode == 1 {
                        AvailableGameMode::Multiplayer
                    } else {
                        AvailableGameMode::Bot
                    },
                );
                if game_mode == 0 {
                    if self.form.clock_cursor > TIME_CONTROL_CUSTOM_INDEX as u32 {
                        self.form.clock_cursor = 3;
                    }
                } else {
                    self.hosting = None;
                    self.form.selected_color = None;
                }
                MenuAction::Nothing
            } else if key == MenuKey::Esc || key == MenuKey::Char('b') {
                self.menu_cursor = 0;
                self.form.selection = None;
                self.form.form_cursor = 0;
                self.form.form_active = false;
                self.form.clock_cursor = 3;
                self.form.custom_time_minutes = 10;
                self.current_page = Pages::Home;
                MenuAction::Nothing
            } else if key == MenuKey::Char('?') {
                MenuAction::ToggleHelp
            } else {
                MenuAction::Fallback
            }
        }
    }
}

} // verus!
