# chess_tui

A chess game for the terminal, with its core written in Verus. The logic
under `src/` is verified by Verus against its contracts; the calls it makes
into `shakmaty` and into the standard library (time, channels, text
conversion) go through a small set of trusted wrappers, marked
`#[verifier::external_body]`, whose contracts are believed, not proved.

## Layout

- `src/chess.rs` — the chess rules, as given by `shakmaty`, behind a small
  set of trusted wrappers whose contracts name what the crate computes
  (legal moves, the position after a move, check, FEN and SAN text).
- `src/game_logic/` — the game itself: the board and its history
  (`game_board.rs`), moves of the player, the engine and a networked
  opponent (`game.rs`, `opponent.rs`, `bot.rs`), the clock, the view and its
  cursor (`ui.rs`), coordinates and perspective, PGN reading and Lichess
  puzzles.
- `src/menu.rs`, `src/popups.rs`, `src/keys.rs`, `src/mouse.rs` — what every
  key and click does on each page and popup: the screen changes they make,
  and the action left to the application.
- `src/cell_click.rs`, `src/tick.rs` — the select-or-move key and the moves
  made with the mouse (turn checks, promotions, puzzle moves checked), and
  what happens at each tick (the puzzle's answer, the clock running out,
  the opponent's moves).
- `src/session.rs`, `src/resume.rs`, `src/online.rs` — the end of a game,
  restarts, the clock running out, moves found by the engine, saving a
  game in progress to take it up again, and what a networked or Lichess
  connection changes in the game.
- `src/config.rs`, `src/state.rs`, `src/constants.rs`, `src/text.rs` —
  settings, screen state, fixed values and the text helpers the rest uses.
- `app/` — the program around the library: the command line (`clap`), the
  settings and save files (`serde`, `toml`, `dirs`), the engine process
  (`ruci`) and a text game loop.
- `tests/` — tests of the library on concrete values.
