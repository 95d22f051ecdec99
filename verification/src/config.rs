//! Command-line arguments and persisted settings, and how the two are
//! merged.

use vstd::prelude::*;
use crate::text::{chars_eq, chars_of, is_empty_text};

verus! {

/// Command-line arguments.
#[derive(Debug)]
pub struct Args {
    /// Path for the chess engine (empty when not given).
    pub engine_path: String,
    /// Bot thinking depth for the chess engine.
    pub depth: Option<u8>,
    /// Bot difficulty: easy, medium, hard or magnus.
    pub difficulty: Option<String>,
    /// Lichess API token.
    pub lichess_token: Option<String>,
    /// Disable sound effects.
    pub no_sound: bool,
    /// Skin name.
    pub skin: Option<String>,
    /// Update the skin config with the built-in default.
    pub update_skins: bool,
    /// Open a PGN file or directory in the viewer.
    pub pgn: Option<String>,
}

/// Persisted settings.
#[derive(Debug)]
pub struct Config {
    pub engine_path: Option<String>,
    pub display_mode: Option<String>,
    pub log_level: Option<String>,
    pub bot_depth: Option<u8>,
    /// Bot difficulty preset: none is full strength, 0..=3 Easy..Magnus.
    pub bot_difficulty: Option<u8>,
    pub selected_skin_name: Option<String>,
    pub lichess_token: Option<String>,
    pub sound_enabled: Option<bool>,
}

impl Default for Config {
    /// DEFAULT display, logging OFF, depth 10, "Default" skin, sound on.
    fn default() -> (r: Config)
        ensures
            r.engine_path is None,
            r.display_mode matches Some(d) && d@ == "DEFAULT"@,
            r.log_level matches Some(l) && l@ == "OFF"@,
            r.bot_depth == Some(10u8),
            r.bot_difficulty is None,
            r.selected_skin_name matches Some(s) && s@ == "Default"@,
            r.lichess_token is None,
            r.sound_enabled == Some(true),
    {
        Config {
            engine_path: None,
            display_mode: Some(String::from_str("DEFAULT")),
            log_level: Some(String::from_str("OFF")),
            bot_depth: Some(10),
            bot_difficulty: None,
            selected_skin_name: Some(String::from_str("Default")),
            lichess_token: None,
            sound_enabled: Some(true),
        }
    }
}

/// The OS error number of a read-only file system.
pub const EROFS: i32 = 30i32;

/// Whether an IO error with this OS error number and kind means that the
/// file system is read-only or access is denied.
pub open spec fn readonly_error(os_error: Option<i32>, permission_denied: bool) -> bool {
    os_error == Some(EROFS) || permission_denied
}

/// What tells a failed write of the settings file apart: the OS error
/// number its IO error carries, if any, and whether the error's kind is
/// `PermissionDenied`. The application reads both off the error.
#[derive(Debug, Clone, Copy, PartialEq, Eq, Structural)]
pub struct IoErrorInfo {
    pub os_error: Option<i32>,
    pub permission_denied: bool,
}

impl Config {
    /// Whether an IO error with the given OS error number and kind means a
    /// read-only file system or denied permission.
    pub fn is_readonly_code(os_error: Option<i32>, permission_denied: bool) -> (r: bool)
        ensures
            r == readonly_error(os_error, permission_denied),
    {
        match os_error {
            Some(code) => code == EROFS || permission_denied,
            None => permission_denied,
        }
    }

    /// Whether an IO error means a read-only file system or denied
    /// permission: its OS error number is EROFS, or its kind is
    /// `PermissionDenied`.
    pub fn is_readonly_error(e: &IoErrorInfo) -> (r: bool)
        ensures
            r == readonly_error(e.os_error, e.permission_denied),
    {
        Self::is_readonly_code(e.os_error, e.permission_denied)
    }
}

/// What `str::to_lowercase` gives for `s` (Unicode lower case, the same on
/// every machine).
pub uninterp spec fn lowercase_of(s: Seq<char>) -> Seq<char>;

/// `str::to_lowercase`.
#[verifier::external_body]
fn to_lowercase(s: &str) -> (r: String)
    ensures
        r@ == lowercase_of(s@),
{
    s.to_lowercase()
}

/// The difficulty preset a lower-case name stands for: easy, medium, hard,
/// magnus.
pub open spec fn difficulty_named(lower: Seq<char>) -> Option<u8> {
    if lower == "easy"@ {
        Some(0u8)
    } else if lower == "medium"@ {
        Some(1u8)
    } else if lower == "hard"@ {
        Some(2u8)
    } else if lower == "magnus"@ {
        Some(3u8)
    } else {
        None
    }
}

/// The difficulty preset of a lower-case name.
pub fn difficulty_index(lowered: &str) -> (r: Option<u8>)
    ensures
        r == difficulty_named(lowered@),
{
    let l = chars_of(lowered);
    if chars_eq(&l, &chars_of("easy")) {
        Some(0)
    } else if chars_eq(&l, &chars_of("medium")) {
        Some(1)
    } else if chars_eq(&l, &chars_of("hard")) {
        Some(2)
    } else if chars_eq(&l, &chars_of("magnus")) {
        Some(3)
    } else {
        None
    }
}

/// The difficulty preset a name given on the command line stands for, in
/// any case.
pub fn difficulty_from_arg(name: &str) -> (r: Option<u8>)
    ensures
        r == difficulty_named(lowercase_of(name@)),
{
    let lowered = to_lowercase(name);
    difficulty_index(lowered.as_str())
}

/// The text of an optional setting.
pub open spec fn opt_text(s: Option<String>) -> Option<Seq<char>> {
    match s {
        Some(t) => Some(t@),
        None => None,
    }
}

/// The engine path after merging: the command line's when given; else the
/// setting, made empty when it was missing.
pub open spec fn merged_engine_path(config: Option<Seq<char>>, arg: Seq<char>) -> Seq<char> {
    if arg.len() > 0 {
        arg
    } else {
        match config {
            Some(p) => p,
            None => Seq::empty(),
        }
    }
}

/// The Lichess token after merging: the command line's; else the
/// setting; else a non-empty token from the environment.
pub open spec fn merged_token(config: Option<Seq<char>>, arg: Option<Seq<char>>, env: Option<Seq<char>>) -> Option<Seq<char>> {
    match arg {
        Some(t) => Some(t),
        None => match config {
            Some(t) => Some(t),
            None => match env {
                Some(e) => if e.len() > 0 { Some(e) } else { None },
                None => None,
            },
        },
    }
}

impl Config {
    /// The settings with the command-line arguments merged in: missing
    /// settings get their defaults (an empty engine path, DEFAULT display,
    /// logging OFF, depth 10, the Default skin, sound on), and the command
    /// line takes precedence (engine path, token, depth, a known
    /// difficulty, `--no-sound`); with no token on the command line or in
    /// the settings, a non-empty `env_token` (the environment's) is used.
    pub fn merged_with_args(config: Config, args: &Args, env_token: Option<String>) -> (r: Config)
        ensures
            r.engine_path matches Some(p) && p@ == merged_engine_path(opt_text(config.engine_path), args.engine_path@),
            opt_text(r.display_mode) == (match config.display_mode {
                Some(d) => Some(d@),
                None => Some("DEFAULT"@),
            }),
            opt_text(r.log_level) == (match config.log_level {
                Some(l) => Some(l@),
                None => Some("OFF"@),
            }),
            r.bot_depth == (match args.depth {
                Some(d) => Some(d),
                None => match config.bot_depth {
                    Some(d) => Some(d),
                    None => Some(10u8),
                },
            }),
            r.bot_difficulty == (match args.difficulty {
                Some(d) => match difficulty_named(lowercase_of(d@)) {
                    Some(i) => Some(i),
                    None => config.bot_difficulty,
                },
                None => config.bot_difficulty,
            }),
            opt_text(r.selected_skin_name) == (match config.selected_skin_name {
                Some(n) => Some(n@),
                None => Some("Default"@),
            }),
            opt_text(r.lichess_token) == merged_token(
                opt_text(config.lichess_token),
                opt_text(args.lichess_token),
                opt_text(env_token),
            ),
            r.sound_enabled == (if args.no_sound {
                Some(false)
            } else {
                match config.sound_enabled {
                    Some(b) => Some(b),
                    None => Some(true),
                }
            }),
    {
        let mut config = config;
        let missing_path = match &config.engine_path {
            Some(p) => is_empty_text(p.as_str()),
            None => true,
        };
        if missing_path {
            if is_empty_text(args.engine_path.as_str()) {
                config.engine_path = Some(String::new());
            } else {
                config.engine_path = Some(args.engine_path.clone());
            }
        }
        if config.display_mode.is_none() {
            config.display_mode = Some(String::from_str("DEFAULT"));
        }
        if config.log_level.is_none() {
            config.log_level = Some(String::from_str("OFF"));
        }
        if config.bot_depth.is_none() {
            config.bot_depth = Some(10);
        }
        if config.selected_skin_name.is_none() {
            config.selected_skin_name = Some(String::from_str("Default"));
        }
        if config.sound_enabled.is_none() {
            config.sound_enabled = Some(true);
        }
        if !is_empty_text(args.engine_path.as_str()) {
            config.engine_path = Some(args.engine_path.clone());
        }
        match &args.lichess_token {
            Some(token) => {
                config.lichess_token = Some(token.clone());
            },
            None => {
                if config.lichess_token.is_none() {
                    if let Some(env) = env_token {
                        if !is_empty_text(env.as_str()) {
                            config.lichess_token = Some(env);
                        }
                    }
                }
            },
        }
        if let Some(depth) = args.depth {
            config.bot_depth = Some(depth);
        }
        if let Some(d) = &args.difficulty {
            if let Some(i) = difficulty_from_arg(d.as_str()) {
                config.bot_difficulty = Some(i);
            }
        }
        if args.no_sound {
            config.sound_enabled = Some(false);
        }
        config
    }
}

/// What a failed write of the settings file means for the warning shown.
#[derive(Debug, Clone, Copy, PartialEq, Eq, Structural)]
pub enum ConfigWriteWarning {
    /// The file is read-only; settings changes will not be persisted.
    ReadOnly,
    /// Writing failed for another reason.
    Failed,
}

impl Config {
    /// Which warning a failed write of the settings file calls for: the
    /// read-only one when `is_readonly_error` says so. The application
    /// shows it with the path and the error.
    pub fn handle_config_write_error(e: &IoErrorInfo) -> (r: ConfigWriteWarning)
        ensures
            r == (if readonly_error(e.os_error, e.permission_denied) {
                ConfigWriteWarning::ReadOnly
            } else {
                ConfigWriteWarning::Failed
            }),
    {
        if Self::is_readonly_error(e) {
            ConfigWriteWarning::ReadOnly
        } else {
            ConfigWriteWarning::Failed
        }
    }
}

} // verus!
