//! The chess engine opponent: its settings, and the strength presets.
//!
//! Talking to the engine process is done by the application; the library
//! decides what to ask of it (depth, think time, playing strength) and how
//! the engine command line is split into program and arguments.

use vstd::prelude::*;
use crate::text::{chars_of, split_whitespace, views, words};

verus! {

/// Display labels for the four difficulty presets.
pub open spec fn difficulty_name(i: int) -> Seq<char> {
    if i == 0 { "Easy (400)"@ } else if i == 1 { "Medium (900)"@ } else if i == 2 { "Hard (1500)"@ }
    else { "Magnus (2700)"@ }
}

/// `UCI_Elo` of each difficulty preset.
pub open spec fn difficulty_elo(i: int) -> int {
    if i == 0 { 400 } else if i == 1 { 900 } else if i == 2 { 1500 } else { 2700 }
}

/// Engine search depth of each difficulty preset.
pub open spec fn difficulty_depth(i: int) -> int {
    if i == 0 { 1 } else if i == 1 { 4 } else if i == 2 { 8 } else { 20 }
}

/// Engine think time in milliseconds of each difficulty preset.
pub open spec fn difficulty_movetime(i: int) -> int {
    if i == 0 { 25 } else if i == 1 { 120 } else if i == 2 { 500 } else { 12_000 }
}

/// `UCI_Elo` values for the difficulty presets, Easy to Magnus.
pub fn bot_difficulty_elo() -> (r: Vec<u16>)
    ensures
        r@.len() == 4,
        forall|i: int| 0 <= i < 4 ==> #[trigger] r@[i] == difficulty_elo(i),
{
    vec![400u16, 900, 1500, 2700]
}

/// Search depths for the difficulty presets, Easy to Magnus.
pub fn bot_difficulty_depth() -> (r: Vec<u8>)
    ensures
        r@.len() == 4,
        forall|i: int| 0 <= i < 4 ==> #[trigger] r@[i] == difficulty_depth(i),
{
    vec![1u8, 4, 8, 20]
}

/// Think times in milliseconds for the difficulty presets, Easy to Magnus.
pub fn bot_difficulty_movetime_ms() -> (r: Vec<u64>)
    ensures
        r@.len() == 4,
        forall|i: int| 0 <= i < 4 ==> #[trigger] r@[i] == difficulty_movetime(i),
{
    vec![25u64, 120, 500, 12_000]
}

/// Display labels for the difficulty presets, Easy to Magnus.
pub fn bot_difficulty_names() -> (r: Vec<&'static str>)
    ensures
        r@.len() == 4,
        forall|i: int| 0 <= i < 4 ==> #[trigger] r@[i]@ == difficulty_name(i),
{
    vec!["Easy (400)", "Medium (900)", "Hard (1500)", "Magnus (2700)"]
}

/// The engine opponent's settings.
#[derive(Debug)]
pub struct Bot {
    /// The engine command line: the program, then its arguments.
    pub engine_path: String,
    /// Whether a bot move is to follow.
    pub bot_will_move: bool,
    /// Whether the bot starts, the player being Black.
    pub is_bot_starting: bool,
    /// Search depth at full strength.
    pub depth: u8,
    /// Difficulty preset: none is full strength, 0..=3 Easy..Magnus.
    pub difficulty: Option<u8>,
}

impl Clone for Bot {
    /// The same settings.
    fn clone(&self) -> (r: Bot)
        ensures
            r.engine_path@ == self.engine_path@,
            r.bot_will_move == self.bot_will_move,
            r.is_bot_starting == self.is_bot_starting,
            r.depth == self.depth,
            r.difficulty == self.difficulty,
    {
        Bot {
            engine_path: self.engine_path.clone(),
            bot_will_move: self.bot_will_move,
            is_bot_starting: self.is_bot_starting,
            depth: self.depth,
            difficulty: self.difficulty,
        }
    }
}

impl Bot {
    /// A bot with the given engine, side, depth and difficulty, not about
    /// to move.
    pub fn new(engine_path: &str, is_bot_starting: bool, depth: u8, difficulty: Option<u8>) -> (r: Bot)
        ensures
            r.engine_path@ == engine_path@,
            !r.bot_will_move,
            r.is_bot_starting == is_bot_starting,
            r.depth == depth,
            r.difficulty == difficulty,
    {
        Bot {
            engine_path: String::from_str(engine_path),
            bot_will_move: false,
            is_bot_starting,
            depth,
            difficulty,
        }
    }

    /// The search depth: the preset's when a known preset is set, the base
    /// depth otherwise.
    pub fn effective_depth(&self) -> (r: u8)
        ensures
            r == (match self.difficulty {
                Some(i) => if i < 4 { difficulty_depth(i as int) } else { self.depth as int },
                None => self.depth as int,
            }),
    {
        match self.difficulty {
            Some(i) => {
                let table = bot_difficulty_depth();
                let idx = i as usize;
                if idx < table.len() {
                    table[idx]
                } else {
                    self.depth
                }
            },
            None => self.depth,
        }
    }

    /// The think time in milliseconds for a known preset; none (no limit)
    /// otherwise.
    pub fn movetime_ms(&self) -> (r: Option<u64>)
        ensures
            r == (match self.difficulty {
                Some(i) => if i < 4 { Some(difficulty_movetime(i as int) as u64) } else { None },
                None => None,
            }),
    {
        match self.difficulty {
            Some(i) => {
                let table = bot_difficulty_movetime_ms();
                let idx = i as usize;
                if idx < table.len() {
                    Some(table[idx])
                } else {
                    None
                }
            },
            None => None,
        }
    }

    /// The playing strength for a known preset; none otherwise.
    pub fn elo(&self) -> (r: Option<u16>)
        ensures
            r == (match self.difficulty {
                Some(i) => if i < 4 { Some(difficulty_elo(i as int) as u16) } else { None },
                None => None,
            }),
    {
        match self.difficulty {
            Some(i) => {
                let table = bot_difficulty_elo();
                let idx = i as usize;
                if idx < table.len() {
                    Some(table[idx])
                } else {
                    None
                }
            },
            None => None,
        }
    }

    /// The engine command line split on whitespace: the program and its
    /// arguments; a blank line gives the whole text as the program and no
    /// arguments.
    pub fn engine_command(&self) -> (r: (Vec<char>, Vec<Vec<char>>))
        ensures
            words(self.engine_path@).len() == 0 ==> r.0@ == self.engine_path@ && r.1@.len() == 0,
            words(self.engine_path@).len() > 0 ==> r.0@ == words(self.engine_path@)[0] && views(r.1@)
                == words(self.engine_path@).drop_first(),
    {
        let chars = chars_of(self.engine_path.as_str());
        let mut parts = split_whitespace(&chars);
        if parts.len() == 0 {
            return (chars, Vec::new());
        }
        let ghost all = views(parts@);
        let command = parts.remove(0);
        proof {
            assert(views(parts@) =~= all.drop_first());
        }
        (command, parts)
    }
}

} // verus!
