//! The application's state structs: theme, bot, multiplayer, game-mode form
//! and UI navigation.

use vstd::prelude::*;
use crate::constants::{DisplayMode, Pages, Popups, TIME_CONTROL_CUSTOM_INDEX};
use crate::pieces::PieceColor;
use crate::text::{decimal, decimal_chars, chars_of, chars_eq, concat_chars, string_of};
use std::sync::mpsc::Receiver;

verus! {

/// A named look for the board and pieces.
#[derive(Debug)]
pub struct Skin {
    /// The name shown in the skin selector.
    pub name: String,
    /// How pieces are drawn with this skin.
    pub display_mode: DisplayMode,
}

impl Clone for Skin {
    fn clone(&self) -> (r: Skin)
        ensures
            r.name@ == self.name@,
            r.display_mode == self.display_mode,
    {
        Skin { name: self.name.clone(), display_mode: self.display_mode }
    }
}

impl Skin {
    /// The skin used when no skins are available: the built-in "Default".
    pub fn default_display_mode() -> (r: Skin)
        ensures
            r.name@ == "Default"@,
            r.display_mode == DisplayMode::DEFAULT,
    {
        Skin { name: String::from_str("Default"), display_mode: DisplayMode::DEFAULT }
    }
}

/// The index of the first skin named `name` at or after `from`, or none.
pub open spec fn find_skin_from(skins: Seq<Skin>, name: Seq<char>, from: int) -> Option<int>
    decreases skins.len() - from,
{
    if from < 0 || from >= skins.len() {
        None
    } else if skins[from].name@ == name {
        Some(from)
    } else {
        find_skin_from(skins, name, from + 1)
    }
}

/// The index of the selected skin, or 0 when no skin has its name.
pub open spec fn current_skin_index(skins: Seq<Skin>, name: Seq<char>) -> int {
    match find_skin_from(skins, name, 0) {
        Some(i) => i,
        None => 0,
    }
}

/// The index of the skin after the selected one, wrapping around.
pub open spec fn next_skin_index(skins: Seq<Skin>, name: Seq<char>) -> int {
    (current_skin_index(skins, name) + 1) % (skins.len() as int)
}

/// The index of the skin before the selected one, wrapping around.
pub open spec fn previous_skin_index(skins: Seq<Skin>, name: Seq<char>) -> int {
    let i = current_skin_index(skins, name);
    if i == 0 { skins.len() - 1 } else { i - 1 }
}

proof fn lemma_find_skin_bounds(skins: Seq<Skin>, name: Seq<char>, from: int)
    ensures
        find_skin_from(skins, name, from) matches Some(i) ==> 0 <= from <= i < skins.len()
            && skins[i].name@ == name,
    decreases skins.len() - from,
{
    if 0 <= from < skins.len() && skins[from].name@ != name {
        lemma_find_skin_bounds(skins, name, from + 1);
    }
}

/// How pieces are drawn once a skin is chosen, by its name: the built-in
/// "Default" and "ASCII" sets, a custom set for any other skin.
pub open spec fn display_mode_named(name: Seq<char>) -> DisplayMode {
    if name == "Default"@ {
        DisplayMode::DEFAULT
    } else if name == "ASCII"@ {
        DisplayMode::ASCII
    } else {
        DisplayMode::CUSTOM
    }
}

/// How pieces are drawn with the skin named `name` (see
/// `display_mode_named`).
pub fn display_mode_for_skin(name: &str) -> (r: DisplayMode)
    ensures
        r == display_mode_named(name@),
{
    let v = chars_of(name);
    let default_name = chars_of("Default");
    let ascii_name = chars_of("ASCII");
    if chars_eq(&v, &default_name) {
        DisplayMode::DEFAULT
    } else if chars_eq(&v, &ascii_name) {
        DisplayMode::ASCII
    } else {
        DisplayMode::CUSTOM
    }
}

/// Everything related to the theme.
pub struct ThemeState {
    /// The loaded skin.
    pub loaded_skin: Option<Skin>,
    /// Available skins.
    pub available_skins: Vec<Skin>,
    /// Selected skin name.
    pub selected_skin_name: String,
}

impl ThemeState {
    /// No skins loaded, "Default" selected.
    pub fn default() -> (r: ThemeState)
        ensures
            r.loaded_skin is None,
            r.available_skins@.len() == 0,
            r.selected_skin_name@ == "Default"@,
    {
        ThemeState {
            loaded_skin: None,
            available_skins: Vec::new(),
            selected_skin_name: String::from_str("Default"),
        }
    }

    /// The index of the selected skin among the available ones.
    fn current_index(&self) -> (r: usize)
        requires
            self.available_skins@.len() > 0,
        ensures
            r == current_skin_index(self.available_skins@, self.selected_skin_name@),
            r < self.available_skins@.len(),
    {
        let mut i: usize = 0;
        while i < self.available_skins.len()
            invariant
                i <= self.available_skins@.len(),
                find_skin_from(self.available_skins@, self.selected_skin_name@, 0)
                    == find_skin_from(self.available_skins@, self.selected_skin_name@, i as int),
            decreases self.available_skins@.len() - i,
        {
            if self.available_skins[i].name == self.selected_skin_name {
                proof { lemma_find_skin_bounds(self.available_skins@, self.selected_skin_name@, 0); }
                return i;
            }
            i += 1;
        }
        0
    }

    /// The skin after the selected one (wrapping), or the built-in default
    /// when none are available.
    pub fn get_next_skin(&mut self) -> (r: Skin)
        ensures
            *final(self) == *old(self),
            old(self).available_skins@.len() == 0 ==> r.name@ == "Default"@ && r.display_mode
                == DisplayMode::DEFAULT,
            old(self).available_skins@.len() > 0 ==> {
                let s = old(self).available_skins@[
                    next_skin_index(old(self).available_skins@, old(self).selected_skin_name@)
                ];
                r.name@ == s.name@ && r.display_mode == s.display_mode
            },
    {
        if self.available_skins.len() == 0 {
            return Skin::default_display_mode();
        }
        let current = self.current_index();
        let next = (current + 1) % self.available_skins.len();
        self.available_skins[next].clone()
    }

    /// The skin before the selected one (wrapping), or the built-in default
    /// when none are available.
    pub fn get_previous_skin(&mut self) -> (r: Skin)
        ensures
            *final(self) == *old(self),
            old(self).available_skins@.len() == 0 ==> r.name@ == "Default"@ && r.display_mode
                == DisplayMode::DEFAULT,
            old(self).available_skins@.len() > 0 ==> {
                let s = old(self).available_skins@[
                    previous_skin_index(old(self).available_skins@, old(self).selected_skin_name@)
                ];
                r.name@ == s.name@ && r.display_mode == s.display_mode
            },
    {
        if self.available_skins.len() == 0 {
            return Skin::default_display_mode();
        }
        let current = self.current_index();
        let previous = if current == 0 {
            self.available_skins.len() - 1
        } else {
            current - 1
        };
        self.available_skins[previous].clone()
    }

    /// Moves to the skin after (`next`) or before the selected one (see
    /// `get_skin`): it is loaded and selected. Returns it with how its
    /// pieces are drawn (`display_mode_named`).
    pub fn cycle_skin(&mut self, next: bool) -> (r: (Skin, DisplayMode))
        ensures
            final(self).available_skins@ == old(self).available_skins@,
            final(self).loaded_skin matches Some(l) && l.name@ == r.0.name@ && l.display_mode == r.0.display_mode,
            final(self).selected_skin_name@ == r.0.name@,
            r.1 == display_mode_named(r.0.name@),
            old(self).available_skins@.len() == 0 ==> r.0.name@ == "Default"@ && r.0.display_mode
                == DisplayMode::DEFAULT,
            old(self).available_skins@.len() > 0 ==> {
                let s = old(self).available_skins@[
                    if next {
                        next_skin_index(old(self).available_skins@, old(self).selected_skin_name@)
                    } else {
                        previous_skin_index(old(self).available_skins@, old(self).selected_skin_name@)
                    }
                ];
                r.0.name@ == s.name@ && r.0.display_mode == s.display_mode
            },
    {
        let future = self.get_skin(next);
        self.loaded_skin = Some(future.clone());
        self.selected_skin_name = future.name.clone();
        let mode = display_mode_for_skin(future.name.as_str());
        (future, mode)
    }

    /// The skin after (`next`) or before the selected one, wrapping around;
    /// the built-in default when none are available.
    pub fn get_skin(&self, next: bool) -> (r: Skin)
        ensures
            self.available_skins@.len() == 0 ==> r.name@ == "Default"@ && r.display_mode == DisplayMode::DEFAULT,
            self.available_skins@.len() > 0 ==> {
                let s = self.available_skins@[
                    if next {
                        next_skin_index(self.available_skins@, self.selected_skin_name@)
                    } else {
                        previous_skin_index(self.available_skins@, self.selected_skin_name@)
                    }
                ];
                r.name@ == s.name@ && r.display_mode == s.display_mode
            },
    {
        if self.available_skins.len() == 0 {
            return Skin::default_display_mode();
        }
        let current = self.current_index();
        if next {
            let next_index = (current + 1) % self.available_skins.len();
            self.available_skins[next_index].clone()
        } else {
            let previous_index = if current == 0 {
                self.available_skins.len() - 1
            } else {
                current - 1
            };
            self.available_skins[previous_index].clone()
        }
    }
}

/// Going to the next skin and then to the previous one comes back to the
/// selected skin, when its name is among the available ones.
pub proof fn lemma_skin_next_then_previous(skins: Seq<Skin>, name: Seq<char>)
    requires
        skins.len() > 0,
        find_skin_from(skins, name, 0) is Some,
        forall|i: int, j: int|
            0 <= i < j < skins.len() ==> skins[i].name@ != skins[j].name@,
    ensures
        previous_skin_index(skins, skins[next_skin_index(skins, name)].name@)
            == current_skin_index(skins, name),
{
    lemma_find_skin_bounds(skins, name, 0);
    let c = current_skin_index(skins, name);
    let len = skins.len() as int;
    let n = next_skin_index(skins, name);
    if c + 1 < len {
        assert(n == c + 1) by (nonlinear_arith) requires n == (c + 1) % len, 0 <= c, c + 1 < len;
    } else {
        assert(n == 0) by (nonlinear_arith) requires n == (c + 1) % len, c + 1 == len, len > 0;
    }
    lemma_find_unique(skins, skins[n].name@, n, 0);
}

/// Going to the previous skin and then to the next one comes back to the
/// selected skin, when its name is among the available ones.
pub proof fn lemma_skin_previous_then_next(skins: Seq<Skin>, name: Seq<char>)
    requires
        skins.len() > 0,
        find_skin_from(skins, name, 0) is Some,
        forall|i: int, j: int|
            0 <= i < j < skins.len() ==> skins[i].name@ != skins[j].name@,
    ensures
        next_skin_index(skins, skins[previous_skin_index(skins, name)].name@)
            == current_skin_index(skins, name),
{
    lemma_find_skin_bounds(skins, name, 0);
    let c = current_skin_index(skins, name);
    let len = skins.len() as int;
    let p = previous_skin_index(skins, name);
    lemma_find_unique(skins, skins[p].name@, p, 0);
    if c == 0 {
        assert((len - 1 + 1) % len == 0) by (nonlinear_arith) requires len > 0;
    } else {
        assert((c - 1 + 1) % len == c) by (nonlinear_arith) requires 0 < c < len;
    }
}

proof fn lemma_find_unique(skins: Seq<Skin>, name: Seq<char>, k: int, from: int)
    requires
        0 <= from <= k < skins.len(),
        skins[k].name@ == name,
        forall|i: int, j: int|
            0 <= i < j < skins.len() ==> skins[i].name@ != skins[j].name@,
    ensures
        find_skin_from(skins, name, from) == Some(k),
    decreases k - from,
{
    if from < k {
        assert(skins[from].name@ != skins[k].name@);
        lemma_find_unique(skins, name, k, from + 1);
    }
}

/// Everything related to the bot.
pub struct BotState {
    /// Engine search depth used when no difficulty preset is set.
    pub bot_depth: u8,
    /// Difficulty preset: none means full strength, 0..=3 Easy to Magnus.
    pub bot_difficulty: Option<u8>,
    /// Where the engine's answer (a UCI move) arrives.
    pub bot_move_receiver: Option<Receiver<String>>,
    /// Path of the chess engine.
    pub chess_engine_path: Option<String>,
}

impl BotState {
    /// Depth 10, full strength, no engine.
    pub fn default() -> (r: BotState)
        ensures
            r.bot_depth == 10,
            r.bot_difficulty is None,
            r.bot_move_receiver is None,
            r.chess_engine_path is None,
    {
        BotState {
            bot_depth: 10,
            bot_difficulty: None,
            bot_move_receiver: None,
            chess_engine_path: None,
        }
    }
}

/// Everything related to multiplayer networking.
pub struct MultiplayerState {
    /// Whether the player is hosting.
    pub hosting: Option<bool>,
    /// Host IP address with port.
    pub host_ip: Option<String>,
    /// Signals when the opponent has joined and the game can start.
    pub game_start_rx: Option<Receiver<()>>,
}

impl MultiplayerState {
    /// Not hosting, no host, no signal.
    pub fn default() -> (r: MultiplayerState)
        ensures
            r.hosting is None,
            r.host_ip is None,
            r.game_start_rx is None,
    {
        MultiplayerState { hosting: None, host_ip: None, game_start_rx: None }
    }

    /// Forgets the hosting choice, the host and the start signal.
    pub fn reset(&mut self)
        ensures
            final(self).hosting is None,
            final(self).host_ip is None,
            final(self).game_start_rx is None,
    {
        self.hosting = None;
        self.host_ip = None;
        self.game_start_rx = None;
    }
}

/// The game modes offered by the game-mode form.
#[derive(Debug, Clone, Copy, PartialEq, Eq, Structural)]
pub enum AvailableGameMode {
    Local,
    Multiplayer,
    Bot,
}

/// Name of the time control at an index of the form.
pub open spec fn time_control_name(i: u32) -> Seq<char> {
    if i == 0 { "UltraBullet"@ } else if i == 1 { "Bullet"@ } else if i == 2 { "Blitz"@ }
    else if i == 3 { "Rapid"@ } else if i == 4 { "Classical"@ } else if i == 5 { "No clock"@ }
    else if i == TIME_CONTROL_CUSTOM_INDEX { "Custom"@ } else { "Rapid"@ }
}

/// Seconds per side of the time control at an index; none for "No clock".
pub open spec fn time_control_seconds(i: u32, custom_minutes: u32) -> Option<int> {
    if i == 0 { Some(15) } else if i == 1 { Some(60) } else if i == 2 { Some(300) }
    else if i == 3 { Some(600) } else if i == 4 { Some(3600) } else if i == 5 { None }
    else if i == TIME_CONTROL_CUSTOM_INDEX { Some(custom_minutes * 60) } else { Some(600) }
}

/// The description of the time control at an index.
pub open spec fn time_control_description(i: u32, custom_minutes: u32) -> Seq<char> {
    if i == 0 { "Lightning fast (15 seconds per side)"@ }
    else if i == 1 { "Very short games (e.g., 1 minute per side)"@ }
    else if i == 2 { "Fast games (e.g., 5 minutes)"@ }
    else if i == 3 { "Medium games (e.g., 10 minutes)"@ }
    else if i == 4 { "Longer games (e.g., 60 minutes)"@ }
    else if i == 5 { "Play without any time limits"@ }
    else if i == TIME_CONTROL_CUSTOM_INDEX {
        "Custom time: "@ + decimal(custom_minutes as nat) + " minutes per side"@
    } else { "Medium games (e.g., 10 minutes)"@ }
}

/// The color selector moved one entry back. White, or nothing chosen yet,
/// goes to Random; Random goes to Black; Black goes to White.
pub open spec fn previous_color_option(sel: Option<PieceColor>, random: bool) -> (Option<PieceColor>, bool) {
    if sel == Some(PieceColor::White) || (sel is None && !random) {
        (None, true)
    } else if random {
        (Some(PieceColor::Black), false)
    } else if sel == Some(PieceColor::Black) {
        (Some(PieceColor::White), false)
    } else {
        (sel, random)
    }
}

/// The color selector moved one entry on. White, or nothing chosen yet,
/// goes to Black; Black goes to Random; Random goes to White.
pub open spec fn next_color_option(sel: Option<PieceColor>, random: bool) -> (Option<PieceColor>, bool) {
    if sel == Some(PieceColor::White) || (sel is None && !random) {
        (Some(PieceColor::Black), false)
    } else if sel == Some(PieceColor::Black) {
        (None, true)
    } else if random {
        (Some(PieceColor::White), false)
    } else {
        (sel, random)
    }
}

/// Everything related to the game-mode form.
#[derive(Debug)]
pub struct GameModeState {
    /// Selected game mode.
    pub selection: Option<AvailableGameMode>,
    /// Form field cursor.
    pub form_cursor: u8,
    /// Whether the form is active.
    pub form_active: bool,
    /// Time control index (0 UltraBullet .. 5 No clock, 6 Custom).
    pub clock_cursor: u32,
    /// Custom time in minutes, used with the Custom time control.
    pub custom_time_minutes: u32,
    /// Whether the player chose the Random color option.
    pub is_random_color: bool,
    /// The chosen color, for bot and multiplayer games.
    pub selected_color: Option<PieceColor>,
}

impl GameModeState {
    /// Nothing selected, Rapid, 10 custom minutes.
    pub fn default() -> (r: GameModeState)
        ensures
            r.selection is None,
            r.form_cursor == 0,
            !r.form_active,
            r.clock_cursor == 3,
            r.custom_time_minutes == 10,
            r.selected_color is None,
            !r.is_random_color,
    {
        GameModeState {
            selection: None,
            form_cursor: 0,
            form_active: false,
            clock_cursor: 3,
            custom_time_minutes: 10,
            selected_color: None,
            is_random_color: false,
        }
    }

    /// Clears the color choice.
    pub fn reset_selected_color(&mut self)
        ensures
            *final(self) == (GameModeState { selected_color: None, is_random_color: false, ..*old(self) }),
    {
        self.selected_color = None;
        self.is_random_color = false;
    }

    /// The name of the selected time control.
    pub fn get_time_control_name(&self) -> (r: &'static str)
        ensures
            r@ == time_control_name(self.clock_cursor),
    {
        match self.clock_cursor {
            0 => "UltraBullet",
            1 => "Bullet",
            2 => "Blitz",
            3 => "Rapid",
            4 => "Classical",
            5 => "No clock",
            6 => "Custom",
            _ => "Rapid",
        }
    }

    /// Seconds per side of the selected time control; none for "No clock".
    pub fn get_time_control_seconds(&self) -> (r: Option<u32>)
        requires
            self.clock_cursor == TIME_CONTROL_CUSTOM_INDEX ==> self.custom_time_minutes * 60
                <= u32::MAX,
        ensures
            match time_control_seconds(self.clock_cursor, self.custom_time_minutes) {
                Some(s) => r matches Some(x) && x == s,
                None => r is None,
            },
    {
        match self.clock_cursor {
            0 => Some(15),
            1 => Some(60),
            2 => Some(5 * 60),
            3 => Some(10 * 60),
            4 => Some(60 * 60),
            5 => None,
            6 => Some(self.custom_time_minutes * 60),
            _ => Some(10 * 60),
        }
    }

    /// The description of the selected time control.
    pub fn get_time_control_description(&self) -> (r: String)
        ensures
            r@ == time_control_description(self.clock_cursor, self.custom_time_minutes),
    {
        match self.clock_cursor {
            0 => String::from_str("Lightning fast (15 seconds per side)"),
            1 => String::from_str("Very short games (e.g., 1 minute per side)"),
            2 => String::from_str("Fast games (e.g., 5 minutes)"),
            3 => String::from_str("Medium games (e.g., 10 minutes)"),
            4 => String::from_str("Longer games (e.g., 60 minutes)"),
            5 => String::from_str("Play without any time limits"),
            6 => {
                let a = chars_of("Custom time: ");
                let b = decimal_chars(self.custom_time_minutes as u64);
                let c = chars_of(" minutes per side");
                string_of(&concat_chars(&concat_chars(&a, &b), &c))
            },
            _ => String::from_str("Medium games (e.g., 10 minutes)"),
        }
    }

    /// Moves the color selector one entry back: White -> Random -> Black -> White.
    pub fn select_previous_color_option(&mut self)
        ensures
            (final(self).selected_color, final(self).is_random_color) == previous_color_option(
                old(self).selected_color,
                old(self).is_random_color,
            ),
            final(self).clock_cursor == old(self).clock_cursor,
    {
        if self.selected_color == Some(PieceColor::White)
            || self.selected_color.is_none() && !self.is_random_color
        {
            self.selected_color = None;
            self.is_random_color = true;
        } else if self.is_random_color {
            self.selected_color = Some(PieceColor::Black);
            self.is_random_color = false;
        } else if self.selected_color == Some(PieceColor::Black) {
            self.selected_color = Some(PieceColor::White);
            self.is_random_color = false;
        }
    }

    /// Moves the color selector one entry on: White -> Black -> Random -> White.
    pub fn select_next_color_option(&mut self)
        ensures
            (final(self).selected_color, final(self).is_random_color) == next_color_option(
                old(self).selected_color,
                old(self).is_random_color,
            ),
            final(self).clock_cursor == old(self).clock_cursor,
    {
        if self.selected_color == Some(PieceColor::White)
            || self.selected_color.is_none() && !self.is_random_color
        {
            self.selected_color = Some(PieceColor::Black);
            self.is_random_color = false;
        } else if self.selected_color == Some(PieceColor::Black) {
            self.selected_color = None;
            self.is_random_color = true;
        } else if self.is_random_color {
            self.selected_color = Some(PieceColor::White);
            self.is_random_color = false;
        }
    }

    /// Settles the color: a coin toss (`coin_white`) decides a Random choice,
    /// no choice at all means White, and a made choice stays.
    pub fn resolve_selected_color_with(&mut self, coin_white: bool)
        ensures
            final(self).is_random_color == old(self).is_random_color,
            final(self).selected_color == (if old(self).selected_color.is_some() {
                old(self).selected_color
            } else if old(self).is_random_color {
                Some(if coin_white { PieceColor::White } else { PieceColor::Black })
            } else {
                Some(PieceColor::White)
            }),
    {
        if self.is_random_color && self.selected_color.is_none() {
            self.selected_color = Some(if coin_white { PieceColor::White } else { PieceColor::Black });
        } else if !self.is_random_color && self.selected_color.is_none() {
            self.selected_color = Some(PieceColor::White);
        }
    }
}

/// `rand::random::<bool>()`: a coin toss. Nothing is stated of the
/// outcome, which is random.
#[verifier::external_body]
pub(crate) fn coin_toss() -> (r: bool) {
    rand::random::<bool>()
}

impl GameModeState {
    /// Settles the color, tossing a coin for a Random choice (see
    /// `resolve_selected_color_with`).
    pub fn resolve_selected_color(&mut self)
        ensures
            final(self).is_random_color == old(self).is_random_color,
            old(self).selected_color is Some ==> final(self).selected_color == old(self).selected_color,
            old(self).selected_color is None && !old(self).is_random_color ==> final(self).selected_color
                == Some(PieceColor::White),
            final(self).selected_color is Some,
    {
        let coin_white = coin_toss();
        self.resolve_selected_color_with(coin_white);
    }
}

/// Cycling the color selector forward and then back returns to the same
/// entry, starting from any of the three entries the selector shows.
pub proof fn lemma_color_cycle_roundtrip(sel: Option<PieceColor>, random: bool)
    requires
        (sel is None && !random) || (sel is None && random) || (sel is Some && !random),
    ensures
        ({
            let (s1, r1) = next_color_option(sel, random);
            previous_color_option(s1, r1)
        }) == (if sel is None && !random { (Some(PieceColor::White), false) } else { (sel, random) }),
{
}

/// The entries of the main menu, indexed by the menu cursor.
#[derive(Debug, Clone, Copy, PartialEq, Eq, Structural)]
pub enum MainMenuItems {
    GameModeMenu,
    LichessMenu,
    SkinSelector,
    SoundSelector,
    Help,
    Credit,
}

/// The menu entry at a cursor position; out of range means the first.
pub open spec fn menu_item_at(value: u8) -> MainMenuItems {
    if value == 0 { MainMenuItems::GameModeMenu } else if value == 1 { MainMenuItems::LichessMenu }
    else if value == 2 { MainMenuItems::SkinSelector } else if value == 3 { MainMenuItems::SoundSelector }
    else if value == 4 { MainMenuItems::Help } else if value == 5 { MainMenuItems::Credit }
    else { MainMenuItems::GameModeMenu }
}

impl MainMenuItems {
    /// The menu entry at a cursor position; out of range means the first.
    pub fn from_cursor(value: u8) -> (r: MainMenuItems)
        ensures
            r == menu_item_at(value),
    {
        match value {
            0 => MainMenuItems::GameModeMenu,
            1 => MainMenuItems::LichessMenu,
            2 => MainMenuItems::SkinSelector,
            3 => MainMenuItems::SoundSelector,
            4 => MainMenuItems::Help,
            5 => MainMenuItems::Credit,
            _ => MainMenuItems::GameModeMenu,
        }
    }
}

/// Which page and popup are shown, and where the menu cursor is.
#[derive(Debug)]
pub struct UiState {
    /// Menu cursor.
    pub menu_cursor: u8,
    /// Current page.
    pub current_page: Pages,
    /// Current popup.
    pub current_popup: Option<Popups>,
    /// Message shown by message popups.
    pub popup_message: Option<String>,
    /// Whether the user dismissed the end screen.
    pub end_screen_dismissed: bool,
}

/// The menu cursor moved one entry back, wrapping from the first to the last
/// of `len` entries.
pub open spec fn cursor_back(cursor: u8, len: u8) -> int {
    if cursor > 0 { cursor - 1 } else { len - 1 }
}

/// The menu cursor moved one entry on, wrapping from the last entry of
/// `len` to the first.
pub open spec fn cursor_forward(cursor: u8, len: u8) -> int {
    if cursor < len - 1 { cursor + 1 } else { 0 }
}

impl UiState {
    /// Home page, no popup, cursor on the first entry.
    pub fn default() -> (r: UiState)
        ensures
            r.menu_cursor == 0,
            r.current_page == Pages::Home,
            r.current_popup is None,
            r.popup_message is None,
            !r.end_screen_dismissed,
    {
        UiState {
            menu_cursor: 0,
            current_page: Pages::Home,
            current_popup: None,
            popup_message: None,
            end_screen_dismissed: false,
        }
    }

    /// Moves the menu cursor up among `l` entries, wrapping to the last.
    pub fn menu_cursor_up(&mut self, l: u8)
        requires
            l >= 1,
        ensures
            *final(self) == (UiState { menu_cursor: cursor_back(old(self).menu_cursor, l) as u8, ..*old(self) }),
    {
        if self.menu_cursor > 0 {
            self.menu_cursor -= 1;
        } else {
            self.menu_cursor = l - 1;
        }
    }

    /// Moves the menu cursor right among `l` entries, wrapping to the first.
    pub fn menu_cursor_right(&mut self, l: u8)
        requires
            l >= 1,
        ensures
            *final(self) == (UiState { menu_cursor: cursor_forward(old(self).menu_cursor, l) as u8, ..*old(self) }),
    {
        if self.menu_cursor < l - 1 {
            self.menu_cursor += 1;
        } else {
            self.menu_cursor = 0;
        }
    }

    /// Moves the menu cursor left among `l` entries, wrapping to the last.
    pub fn menu_cursor_left(&mut self, l: u8)
        requires
            l >= 1,
        ensures
            *final(self) == (UiState { menu_cursor: cursor_back(old(self).menu_cursor, l) as u8, ..*old(self) }),
    {
        if self.menu_cursor > 0 {
            self.menu_cursor -= 1;
        } else {
            self.menu_cursor = l - 1;
        }
    }

    /// Moves the menu cursor down among `l` entries, wrapping to the first.
    pub fn menu_cursor_down(&mut self, l: u8)
        requires
            l >= 1,
        ensures
            *final(self) == (UiState { menu_cursor: cursor_forward(old(self).menu_cursor, l) as u8, ..*old(self) }),
    {
        if self.menu_cursor < l - 1 {
            self.menu_cursor += 1;
        } else {
            self.menu_cursor = 0;
        }
    }

    /// Shows the help popup, or closes it when it is shown.
    pub fn toggle_help_popup(&mut self)
        ensures
            *final(self) == (if old(self).current_popup == Some(Popups::Help) {
                UiState { current_popup: None, popup_message: None, ..*old(self) }
            } else {
                UiState { current_popup: Some(Popups::Help), ..*old(self) }
            }),
    {
        if self.current_popup == Some(Popups::Help) {
            self.close_popup();
        } else {
            self.current_popup = Some(Popups::Help);
        }
    }

    /// Shows the credits from the home page; elsewhere goes back home with
    /// the cursor on the first entry.
    pub fn toggle_credit_popup(&mut self)
        ensures
            *final(self) == (if old(self).current_page == Pages::Home {
                UiState { current_page: Pages::Credit, ..*old(self) }
            } else {
                UiState { current_page: Pages::Home, menu_cursor: 0, ..*old(self) }
            }),
    {
        if self.current_page == Pages::Home {
            self.current_page = Pages::Credit;
        } else {
            self.navigate_to_homepage();
        }
    }

    /// Shows a popup with a message.
    pub fn show_message_popup(&mut self, message: String, popup_type: Popups)
        ensures
            *final(self) == (UiState { current_popup: Some(popup_type), popup_message: Some(message), ..*old(self) }),
    {
        self.popup_message = Some(message);
        self.current_popup = Some(popup_type);
    }

    /// Shows a popup.
    pub fn show_popup(&mut self, popup_type: Popups)
        ensures
            *final(self) == (UiState { current_popup: Some(popup_type), ..*old(self) }),
    {
        self.current_popup = Some(popup_type);
    }

    /// Closes the popup and forgets its message.
    pub fn close_popup(&mut self)
        ensures
            *final(self) == (UiState { current_popup: None, popup_message: None, ..*old(self) }),
    {
        self.current_popup = None;
        self.popup_message = None;
    }

    /// Goes to the home page with the cursor on the first entry.
    pub fn navigate_to_homepage(&mut self)
        ensures
            *final(self) == (UiState { current_page: Pages::Home, menu_cursor: 0, ..*old(self) }),
    {
        self.current_page = Pages::Home;
        self.menu_cursor = 0;
    }
}

/// Moving the menu cursor down and then up returns it to where it was, for
/// any cursor among the `len` entries.
pub proof fn lemma_menu_cursor_round_trip(cursor: u8, len: u8)
    requires
        1 <= len,
        cursor < len,
    ensures
        cursor_back(cursor_forward(cursor, len) as u8, len) == cursor,
{
}

} // verus!
