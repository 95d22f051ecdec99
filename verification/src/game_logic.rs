pub mod coord;
pub mod perspective;
pub mod clock;
pub mod bot;
pub mod opponent;
pub mod game_board;
pub mod game;
pub mod ui;
pub mod puzzle;
pub mod pgn_loader;

use vstd::prelude::*;

verus! {
} // verus!
