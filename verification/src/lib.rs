//! Verified core of a terminal chess game: board coordinates, perspective
//! handling, move history navigation, clocks, puzzles, saved games, the
//! keys and clicks of every page and popup, and the small parsers that sit
//! between the game and its engines and servers.

pub mod text;
pub mod constants;
pub mod color;
pub mod channel;
pub mod state;
pub mod config;
pub mod chess;
pub mod time;
pub mod pieces;
pub mod board;
pub mod game_logic;
pub mod menu;
pub mod popups;
pub mod mouse;
pub mod keys;
pub mod session;
pub mod resume;
pub mod online;
pub mod cell_click;
pub mod tick;

use vstd::prelude::*;

verus! {
} // verus!
