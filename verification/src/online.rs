//! Networked and Lichess games: what a connection changes in the game,
//! the address and colors asked for, the codes of Lichess games and the
//! messages that start them. The connections themselves are the
//! application's part.

use vstd::prelude::*;
use crate::chess::START_FEN;
use crate::constants::{NETWORK_PORT, Pages, Popups};
use crate::game_logic::game::{Game, GameLogic, GameState, control_message_handled};
use crate::game_logic::opponent::Opponent;
use crate::game_logic::pgn_loader::lemma_split_nonempty;
use crate::pieces::PieceColor;
use crate::session::other_side;
use crate::state::{GameModeState, MultiplayerState, UiState};
use crate::text::{
    chars_of, concat_chars, contains_text, decimal, decimal_chars, has_infix, lemma_decimal_read_back, split_char,
    split_on, string_of, views,
};

verus! {

/// Stopping to host a networked game: the opponent is dropped (the
/// application closes its connection), the host choices and the color
/// choice are forgotten, and the board and its view start afresh (the
/// pieces taken stay, as `GameBoard::reset` keeps them). Returns whether
/// there was an opponent.
pub fn cancel_hosting_cleanup(
    game: &mut Game,
    form: &mut GameModeState,
    multiplayer: &mut MultiplayerState,
) -> (had_opponent: bool)
    ensures
        had_opponent == old(game).logic.opponent is Some,
        final(game).logic.opponent is None,
        final(game).logic.bot == old(game).logic.bot,
        final(game).logic.player_turn == old(game).logic.player_turn,
        final(game).logic.game_state == old(game).logic.game_state,
        final(game).logic.game_board.move_history@.len() == 0,
        final(game).logic.game_board.fens() == seq![START_FEN@],
        final(game).logic.game_board.taken_pieces@ == old(game).logic.game_board.taken_pieces@,
        final(game).logic.game_board.consecutive_non_pawn_or_capture == 0,
        !final(game).logic.game_board.is_flipped,
        final(game).logic.game_board.history_position_index is None,
        final(game).logic.game_board.original_flip_state is None,
        final(game).ui.is_fresh(),
        final(game).ui.display_mode == old(game).ui.display_mode,
        *final(form) == (GameModeState { selected_color: None, is_random_color: false, ..*old(form) }),
        final(multiplayer).hosting is None,
        final(multiplayer).host_ip is None,
        final(multiplayer).game_start_rx is None,
{
    let had_opponent = game.logic.opponent.is_some();
    game.logic.opponent = None;
    multiplayer.reset();
    form.reset_selected_color();
    game.logic.game_board.reset();
    game.ui.reset();
    had_opponent
}

/// The color a networked game asks the other player to take: the one not
/// chosen, when hosting; none when joining, the host deciding.
pub open spec fn requested_opponent_color(hosting: Option<bool>, selected: Option<PieceColor>) -> Option<PieceColor> {
    if hosting == Some(true) {
        match selected {
            Some(c) => Some(other_side(c)),
            None => None,
        }
    } else {
        None
    }
}

/// The color a networked game asks the other player to take (see
/// `requested_opponent_color`).
pub fn opponent_color_request(hosting: Option<bool>, selected: Option<PieceColor>) -> (r: Option<PieceColor>)
    ensures
        r == requested_opponent_color(hosting, selected),
{
    match hosting {
        Some(true) => match selected {
            Some(c) => Some(c.opposite()),
            None => None,
        },
        _ => None,
    }
}

/// The address of a hosted game: the host's address and the game's port,
/// or the local address when the host's is not known.
pub open spec fn host_address_text(ip: Option<Seq<char>>) -> Seq<char> {
    match ip {
        Some(a) => a + ":"@ + decimal(NETWORK_PORT as nat),
        None => "127.0.0.1:"@ + decimal(NETWORK_PORT as nat),
    }
}

/// The address of a hosted game (see `host_address_text`).
pub fn host_address(ip: Option<&str>) -> (r: String)
    ensures
        r@ == host_address_text(match ip {
            Some(a) => Some(a@),
            None => None,
        }),
{
    let port = decimal_chars(NETWORK_PORT as u64);
    let head = match ip {
        Some(a) => concat_chars(&chars_of(a), &chars_of(":")),
        None => chars_of("127.0.0.1:"),
    };
    string_of(&concat_chars(&head, &port))
}

/// Once connected to a networked game: a player who joins takes the color
/// the host left (the other side from the opponent's) and the game has
/// started for them; a host waits for the opponent to start it. The board
/// turns round when the player plays Black.
pub fn opponent_connected(logic: &mut GameLogic, form: &mut GameModeState, opponent: Opponent, hosting: bool)
    ensures
        final(logic).opponent == Some(if hosting { opponent } else { Opponent { game_started: true, ..opponent } }),
        hosting ==> *final(form) == *old(form),
        !hosting ==> *final(form) == (GameModeState {
            selected_color: Some(other_side(opponent.color)),
            is_random_color: false,
            ..*old(form)
        }),
        final(logic).game_board.is_flipped == (old(logic).game_board.is_flipped != (final(form).selected_color
            == Some(PieceColor::Black))),
        final(logic).game_board.position_history@ == old(logic).game_board.position_history@,
        final(logic).game_board.move_history@ == old(logic).game_board.move_history@,
        final(logic).bot == old(logic).bot,
        final(logic).player_turn == old(logic).player_turn,
        final(logic).game_state == old(logic).game_state,
{
    let mut opponent = opponent;
    if !hosting {
        form.selected_color = Some(opponent.color.opposite());
        form.is_random_color = false;
        opponent.game_started = true;
    }
    logic.opponent = Some(opponent);
    let black = match form.selected_color {
        Some(PieceColor::Black) => true,
        _ => false,
    };
    if black {
        logic.game_board.flip_the_board();
    }
}

/// The Lichess game a typed code names: the last part of a link to a game
/// ("https://lichess.org/O8uBDzKS"), or the code itself.
pub open spec fn lichess_game_id_of(code: Seq<char>) -> Seq<char> {
    if has_infix(code, "lichess.org/"@) {
        split_on(code, '/').last()
    } else {
        code
    }
}

/// The Lichess game a typed code names (see `lichess_game_id_of`).
pub fn lichess_game_id(code: &str) -> (r: String)
    ensures
        r@ == lichess_game_id_of(code@),
{
    let v = chars_of(code);
    let marker = chars_of("lichess.org/");
    if contains_text(&v, &marker) {
        let parts = split_char(&v, '/');
        proof { lemma_split_nonempty(v@, '/', 0); }
        let last = parts.len() - 1;
        proof { assert(parts@[last as int]@ == views(parts@)[last as int]); }
        string_of(&parts[last])
    } else {
        String::from_str(code)
    }
}

/// The message that tells how many moves a game had when it was joined.
pub open spec fn init_moves_text(n: nat) -> Seq<char> {
    "INIT_MOVES:"@ + decimal(n)
}

/// The message that tells how many moves a game had when it was joined
/// (see `init_moves_text`).
pub fn init_moves_message(n: usize) -> (r: String)
    ensures
        r@ == init_moves_text(n as nat),
{
    string_of(&concat_chars(&chars_of("INIT_MOVES:"), &decimal_chars(n as u64)))
}

/// The number of moves sent when a game is joined is the number the game
/// reads back: the opponent's count of moves already played becomes `n`,
/// and the state of the game does not change.
pub proof fn lemma_init_moves_read_back(n: usize, o0: Opponent, o1: Opponent, g0: GameState, g1: GameState)
    requires
        control_message_handled(init_moves_text(n as nat), o0, o1, g0, g1),
    ensures
        o1.initial_move_count == n,
        o1.moves_received == (if o0.moves_received < n { n } else { o0.moves_received }),
        g1 == g0,
{
    reveal_strlit("INIT_MOVES:");
    let t = init_moves_text(n as nat);
    assert(t.subrange(0, "INIT_MOVES:"@.len() as int) =~= "INIT_MOVES:"@);
    assert(t.skip("INIT_MOVES:"@.len() as int) =~= decimal(n as nat));
    lemma_decimal_read_back(n as nat);
}

/// A Lichess game about to be played: the player's color and the opponent
/// are set (the color not random), the board turns round for Black, and the
/// game's page is shown.
pub fn lichess_game_started(
    logic: &mut GameLogic,
    form: &mut GameModeState,
    ui: &mut UiState,
    opponent: Opponent,
    color: PieceColor,
)
    ensures
        *final(form) == (GameModeState { selected_color: Some(color), is_random_color: false, ..*old(form) }),
        final(logic).opponent == Some(opponent),
        final(logic).game_board.is_flipped == (old(logic).game_board.is_flipped != (color == PieceColor::Black)),
        final(logic).game_board.position_history@ == old(logic).game_board.position_history@,
        final(logic).game_board.move_history@ == old(logic).game_board.move_history@,
        final(logic).bot == old(logic).bot,
        final(logic).player_turn == old(logic).player_turn,
        final(logic).game_state == old(logic).game_state,
        *final(ui) == (UiState { current_page: Pages::Lichess, ..*old(ui) }),
{
    form.selected_color = Some(color);
    form.is_random_color = false;
    logic.opponent = Some(opponent);
    if color == PieceColor::Black {
        logic.game_board.flip_the_board();
    }
    ui.current_page = Pages::Lichess;
}

/// The message shown once a Lichess token is saved, for the account
/// `username`.
pub open spec fn token_saved_text(username: Seq<char>) -> Seq<char> {
    "Lichess token saved successfully!\n\n Logged in as: "@ + username
        + "\n\n You can now use all Lichess features."@
}

/// The message shown when Lichess refuses a token, with its `error`.
pub open spec fn token_refused_text(error: Seq<char>) -> Seq<char> {
    "Invalid Lichess token.\n\nError: "@ + error
        + "\n\n Please check your token and try again.\n\n Follow the documentation: https://thomas-mauran.github.io/chess-tui/docs/Lichess/setup"@
}

/// The screen once Lichess has answered about a new token: accepted
/// (`Ok` with the account's name), the Lichess menu opens when on the home
/// page and a message says who is logged in; refused (`Err` with the
/// reason), an error says so.
pub fn token_checked(ui: &mut UiState, answer: Result<String, String>)
    ensures
        match answer {
            Ok(name) => {
                &&& final(ui).current_page == (if old(ui).current_page == Pages::Home {
                    Pages::LichessMenu
                } else {
                    old(ui).current_page
                })
                &&& final(ui).current_popup == Some(Popups::Success)
                &&& final(ui).popup_message matches Some(m) && m@ == token_saved_text(name@)
            },
            Err(e) => {
                &&& final(ui).current_page == old(ui).current_page
                &&& final(ui).current_popup == Some(Popups::Error)
                &&& final(ui).popup_message matches Some(m) && m@ == token_refused_text(e@)
            },
        },
        final(ui).menu_cursor == old(ui).menu_cursor,
        final(ui).end_screen_dismissed == old(ui).end_screen_dismissed,
{
    match answer {
        Ok(name) => {
            if ui.current_page == Pages::Home {
                ui.current_page = Pages::LichessMenu;
            }
            let head = concat_chars(&chars_of("Lichess token saved successfully!\n\n Logged in as: "), &chars_of(name.as_str()));
            let text = concat_chars(&head, &chars_of("\n\n You can now use all Lichess features."));
            ui.show_message_popup(string_of(&text), Popups::Success);
        },
        Err(e) => {
            let head = concat_chars(&chars_of("Invalid Lichess token.\n\nError: "), &chars_of(e.as_str()));
            let text = concat_chars(
                &head,
                &chars_of(
                    "\n\n Please check your token and try again.\n\n Follow the documentation: https://thomas-mauran.github.io/chess-tui/docs/Lichess/setup",
                ),
            );
            ui.show_message_popup(string_of(&text), Popups::Error);
        },
    }
}

} // verus!
