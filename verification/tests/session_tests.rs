use chess_tui::chess::{ChessMove, Piece};
use chess_tui::constants::{Pages, Popups};
use chess_tui::game_logic::game::{GameLogic, GameState};
use chess_tui::game_logic::game_board::GameBoard;
use chess_tui::pieces::{PieceColor, PieceType};
use chess_tui::game_logic::clock::Clock;
use chess_tui::online::{
    cancel_hosting_cleanup, host_address, init_moves_message, lichess_game_id, lichess_game_started,
    opponent_color_request, opponent_connected, token_checked,
};
use chess_tui::session::{
    restart_game, restart_game_with,
    bot_setup, check_and_show_game_end, check_game_end_status, end_on_time_at, puzzle_move_uci, reset_home,
    restart_plan, restart_plan_with, show_end_screen, show_puzzle_verdict, RestartPlan,
};
use chess_tui::state::{BotState, GameModeState, MultiplayerState, UiState};
use chess_tui::game_logic::game::Game;
use chess_tui::game_logic::opponent::Opponent;
use chess_tui::game_logic::bot::Bot;
use chess_tui::game_logic::puzzle::{Puzzle, PuzzleGame, PuzzleInfo, PuzzleSourceGame};
use chess_tui::constants::DisplayMode;

const MATED: &str = "rnb1kbnr/pppp1ppp/8/4p3/6Pq/5P2/PPPPP2P/RNBQKBNR w KQkq - 1 3";

fn logic_at(fen: &str) -> GameLogic {
    let mut b = GameBoard::default();
    b.position_history = vec![fen.to_string()];
    let mut l = GameLogic::default();
    l.game_board = b;
    l
}

fn solo() -> UiState {
    let mut ui = UiState::default();
    ui.current_page = Pages::Solo;
    ui
}

#[test]
fn end_screen_kind() {
    let mut ui = solo();
    show_end_screen(&mut ui, true);
    assert_eq!(ui.current_popup, Some(Popups::PuzzleEndScreen));
    show_end_screen(&mut ui, false);
    assert_eq!(ui.current_popup, Some(Popups::EndScreen));
}

#[test]
fn checkmate_shows_the_end_screen_once() {
    let mut l = logic_at(MATED);
    let mut ui = solo();
    check_game_end_status(&mut l, &mut ui, false);
    assert_eq!(l.game_state, GameState::Checkmate);
    assert_eq!(ui.current_popup, Some(Popups::EndScreen));

    ui.current_popup = None;
    check_game_end_status(&mut l, &mut ui, false);
    assert_eq!(ui.current_popup, None);
}

#[test]
fn pgn_viewer_keeps_its_state() {
    let mut l = logic_at(MATED);
    let mut ui = solo();
    ui.current_page = Pages::PgnViewer;
    check_game_end_status(&mut l, &mut ui, false);
    assert_eq!(l.game_state, GameState::Playing);
    assert_eq!(ui.current_popup, None);
}

#[test]
fn end_screen_after_a_move_respects_dismissal() {
    let mut l = logic_at(MATED);
    let mut ui = solo();
    ui.end_screen_dismissed = true;
    check_and_show_game_end(&mut l, &mut ui, false);
    assert_eq!(l.game_state, GameState::Checkmate);
    assert_eq!(ui.current_popup, None);

    let mut ui = solo();
    check_and_show_game_end(&mut l, &mut ui, true);
    assert_eq!(ui.current_popup, Some(Popups::PuzzleEndScreen));

    let mut l = GameLogic::default();
    let mut ui = solo();
    ui.end_screen_dismissed = true;
    check_and_show_game_end(&mut l, &mut ui, false);
    assert!(!ui.end_screen_dismissed);
    assert_eq!(ui.current_popup, None);
}

#[test]
fn restart_of_a_local_game_keeps_the_clock() {
    let mut ui = solo();
    ui.current_popup = Some(Popups::EndScreen);
    ui.end_screen_dismissed = true;
    let mut form = GameModeState::default();
    let plan = restart_plan_with(Pages::Solo, false, false, &mut ui, &mut form, true);
    assert_eq!(plan, RestartPlan { clock_seconds: Some(600), bot_starts: false });
    assert_eq!(ui.current_popup, None);
    assert!(!ui.end_screen_dismissed);

    form.clock_cursor = 5;
    let plan = restart_plan_with(Pages::Solo, false, false, &mut ui, &mut form, true);
    assert_eq!(plan.clock_seconds, None);
}

#[test]
fn restart_of_a_networked_game_has_no_clock() {
    let mut ui = solo();
    ui.current_page = Pages::Multiplayer;
    let mut form = GameModeState::default();
    let plan = restart_plan_with(Pages::Multiplayer, false, true, &mut ui, &mut form, true);
    assert_eq!(plan.clock_seconds, None);
}

#[test]
fn restart_against_the_engine_tosses_a_random_color_again() {
    let mut ui = solo();
    ui.current_page = Pages::Bot;
    let mut form = GameModeState::default();
    form.is_random_color = true;
    form.selected_color = Some(PieceColor::White);
    form.clock_cursor = 6;
    form.custom_time_minutes = 3;
    let plan = restart_plan_with(Pages::Bot, true, false, &mut ui, &mut form, false);
    assert_eq!(form.selected_color, Some(PieceColor::Black));
    assert_eq!(plan, RestartPlan { clock_seconds: Some(180), bot_starts: true });

    let mut form = GameModeState::default();
    form.selected_color = Some(PieceColor::White);
    let plan = restart_plan_with(Pages::Bot, true, false, &mut ui, &mut form, false);
    assert_eq!(form.selected_color, Some(PieceColor::White));
    assert!(!plan.bot_starts);

    let mut form = GameModeState::default();
    form.is_random_color = true;
    let plan = restart_plan(Pages::Bot, true, false, &mut ui, &mut form);
    assert!(form.selected_color.is_some());
    assert_eq!(plan.bot_starts, form.selected_color == Some(PieceColor::Black));
}

#[test]
fn time_up_ends_the_game_for_the_other_side() {
    let mut l = GameLogic::default();
    let mut ui = solo();
    let mut clock = Clock::new(60);
    assert_eq!(end_on_time_at(&mut l, &mut clock, &mut ui, false, 0), None);
    assert_eq!(l.game_state, GameState::Playing);
    assert_eq!(ui.current_popup, None);

    clock.start(PieceColor::White);
    assert_eq!(end_on_time_at(&mut l, &mut clock, &mut ui, false, 61_000_000_000), Some(PieceColor::White));
    assert!(!clock.is_running());
    assert_eq!(clock.get_time(PieceColor::White), 0);
    assert_eq!(clock.get_time(PieceColor::Black), 60_000_000_000);
    assert_eq!(l.game_state, GameState::Checkmate);
    assert_eq!(l.player_turn, PieceColor::Black);
    assert_eq!(ui.current_popup, Some(Popups::EndScreen));
}

#[test]
fn empty_clock_is_out_of_time_at_once() {
    let mut l = GameLogic::default();
    let mut ui = solo();
    let mut clock = Clock::new(0);
    assert_eq!(end_on_time_at(&mut l, &mut clock, &mut ui, true, 0), Some(PieceColor::White));
    assert_eq!(ui.current_popup, Some(Popups::PuzzleEndScreen));
}

#[test]
fn engine_move_is_played_and_recorded() {
    let mut l = GameLogic::default();
    let m = ChessMove::Normal { role: PieceType::Pawn, from: 12, capture: None, to: 28, promotion: None };
    l.apply_bot_move(m);
    assert_eq!(l.game_board.move_history, vec![m]);
    assert_eq!(l.game_board.position_history.len(), 2);
    assert_eq!(l.game_board.position_history[1], "rnbqkbnr/pppppppp/8/8/4P3/8/PPPP1PPP/RNBQKBNR b KQkq - 0 1");
    assert_eq!(l.player_turn, PieceColor::Black);
    assert!(l.game_board.taken_pieces.is_empty());
}

#[test]
fn engine_capture_is_counted() {
    let mut l = logic_at("rnbqkbnr/ppp1pppp/8/3p4/4P3/8/PPPP1PPP/RNBQKBNR w KQkq d6 0 2");
    l.apply_bot_move(ChessMove::Normal { role: PieceType::Pawn, from: 28, capture: Some(PieceType::Pawn), to: 35, promotion: None });
    assert_eq!(l.game_board.taken_pieces, vec![Piece { color: PieceColor::Black, role: PieceType::Pawn }]);
    assert_eq!(l.game_board.position_history.len(), 2);
}

#[test]
fn engine_en_passant_takes_the_pawn_beside() {
    let mut l = logic_at("rnbqkbnr/ppp1p1pp/8/3pPp2/8/8/PPPP1PPP/RNBQKBNR w KQkq f6 0 3");
    l.apply_bot_move(ChessMove::EnPassant { from: 36, to: 45 });
    assert_eq!(l.game_board.taken_pieces, vec![Piece { color: PieceColor::Black, role: PieceType::Pawn }]);
    assert_eq!(
        l.game_board.move_history,
        vec![ChessMove::Normal { role: PieceType::Pawn, from: 36, capture: Some(PieceType::Pawn), to: 45, promotion: None }]
    );
    assert_eq!(l.game_board.position_history.len(), 2);
}

#[test]
fn engine_castle_is_written_as_a_king_move() {
    let mut l = logic_at("r3k2r/8/8/8/8/8/8/R3K2R w KQkq - 0 1");
    l.apply_bot_move(ChessMove::Castle { king: 4, rook: 7 });
    assert_eq!(
        l.game_board.move_history,
        vec![ChessMove::Normal { role: PieceType::King, from: 4, capture: None, to: 7, promotion: None }]
    );
    assert!(l.game_board.taken_pieces.is_empty());
    assert_eq!(l.game_board.position_history[1], "r3k2r/8/8/8/8/8/8/R4RK1 b kq - 1 1");
}

#[test]
fn illegal_engine_move_is_written_but_not_played() {
    let mut l = GameLogic::default();
    l.apply_bot_move(ChessMove::Normal { role: PieceType::Pawn, from: 12, capture: None, to: 36, promotion: None });
    assert_eq!(l.game_board.move_history.len(), 1);
    assert_eq!(l.game_board.position_history.len(), 1);
    assert_eq!(l.player_turn, PieceColor::White);
}

#[test]
fn puzzle_move_text() {
    assert_eq!(puzzle_move_uci(12, 28, None), "e2e4");
    assert_eq!(puzzle_move_uci(52, 60, Some(0)), "e7e8q");
    assert_eq!(puzzle_move_uci(52, 60, Some(1)), "e7e8r");
    assert_eq!(puzzle_move_uci(52, 60, Some(2)), "e7e8b");
    assert_eq!(puzzle_move_uci(52, 60, Some(3)), "e7e8n");
    assert_eq!(puzzle_move_uci(52, 60, Some(7)), "e7e8q");
    assert_eq!(puzzle_move_uci(0, 63, None), "a1h8");
}

#[test]
fn puzzle_verdict_popups() {
    let mut ui = solo();
    show_puzzle_verdict(&mut ui, true, None);
    assert_eq!(ui.current_popup, None);
    show_puzzle_verdict(&mut ui, true, Some("Solved".to_string()));
    assert_eq!(ui.current_popup, Some(Popups::PuzzleEndScreen));
    assert_eq!(ui.popup_message.as_deref(), Some("Solved"));
    show_puzzle_verdict(&mut ui, false, Some("Wrong".to_string()));
    assert_eq!(ui.current_popup, Some(Popups::Error));
    assert_eq!(ui.popup_message.as_deref(), Some("Wrong"));
}

#[test]
fn going_home_resets_the_game() {
    let mut game = Game::new(GameBoard::default(), PieceColor::White);
    game.logic.execute_move(12, 28);
    game.logic.opponent = Some(Opponent::new_tcp(PieceColor::Black));
    game.ui.display_mode = DisplayMode::ASCII;
    game.ui.selected_square = Some(3);
    let mut ui = solo();
    ui.current_popup = Some(Popups::EndScreen);
    ui.end_screen_dismissed = true;
    ui.menu_cursor = 2;
    let mut form = GameModeState::default();
    form.selected_color = Some(PieceColor::Black);
    form.is_random_color = true;
    form.clock_cursor = 0;
    let mut mp = MultiplayerState::default();
    mp.hosting = Some(true);
    mp.host_ip = Some("1.2.3.4".to_string());
    let mut pz = Some(a_puzzle());
    game.logic.game_ended_by_time = true;
    assert!(reset_home(&mut game, &mut ui, &mut form, &mut mp, &mut pz));
    assert!(game.logic.game_board.move_history.is_empty());
    assert!(game.logic.opponent.is_none());
    assert_eq!(game.ui.display_mode, DisplayMode::ASCII);
    assert_eq!(game.ui.selected_square, None);
    assert_eq!(ui.current_page, Pages::Home);
    assert_eq!(ui.menu_cursor, 0);
    assert_eq!(ui.current_popup, None);
    assert!(!ui.end_screen_dismissed);
    assert_eq!(form.selected_color, None);
    assert!(!form.is_random_color);
    assert_eq!(form.clock_cursor, 3);
    assert_eq!(mp.hosting, None);
    assert_eq!(mp.host_ip, None);
    assert!(pz.is_none());
    assert!(!game.logic.game_ended_by_time);

    let mut mp = MultiplayerState::default();
    mp.hosting = Some(false);
    assert!(!reset_home(&mut game, &mut ui, &mut form, &mut mp, &mut pz));
    assert_eq!(mp.hosting, Some(false));
}

#[test]
fn cancelling_hosting_forgets_the_opponent() {
    let mut game = Game::new(GameBoard::default(), PieceColor::White);
    game.logic.execute_move(12, 28);
    game.logic.game_board.is_flipped = true;
    game.logic.opponent = Some(Opponent::new_tcp(PieceColor::Black));
    game.ui.selected_square = Some(12);
    let mut form = GameModeState::default();
    form.selected_color = Some(PieceColor::White);
    form.clock_cursor = 1;
    let mut mp = MultiplayerState::default();
    mp.hosting = Some(true);
    assert!(cancel_hosting_cleanup(&mut game, &mut form, &mut mp));
    assert!(game.logic.opponent.is_none());
    assert!(game.logic.game_board.move_history.is_empty());
    assert_eq!(game.logic.game_board.position_history.len(), 1);
    assert!(!game.logic.game_board.is_flipped);
    assert_eq!(game.ui.selected_square, None);
    assert_eq!(form.selected_color, None);
    assert_eq!(form.clock_cursor, 1);
    assert_eq!(mp.hosting, None);
    assert!(!cancel_hosting_cleanup(&mut game, &mut form, &mut mp));
}

#[test]
fn engine_game_setup() {
    let mut l = GameLogic::default();
    let mut clock = None;
    let mut form = GameModeState::default();
    let mut bots = BotState::default();
    bots.chess_engine_path = Some("stockfish".to_string());
    bots.bot_depth = 7;
    assert!(!bot_setup(&mut l, &mut clock, &form, &bots));
    let b = l.bot.clone().unwrap();
    assert_eq!(b.engine_path, "stockfish");
    assert!(!b.is_bot_starting);
    assert_eq!(b.depth, 7);
    assert!(!l.game_board.is_flipped);
    assert_eq!(clock.as_ref().map(|c| c.get_time(PieceColor::White)), Some(600_000_000_000));

    let mut l = GameLogic::default();
    let mut clock = None;
    form.selected_color = Some(PieceColor::Black);
    form.clock_cursor = 5;
    bots.chess_engine_path = None;
    assert!(bot_setup(&mut l, &mut clock, &form, &bots));
    let b = l.bot.clone().unwrap();
    assert_eq!(b.engine_path, "");
    assert!(b.is_bot_starting);
    assert!(l.game_board.is_flipped);
    assert!(clock.is_none());
}

#[test]
fn networked_game_colors_and_address() {
    assert_eq!(opponent_color_request(Some(true), Some(PieceColor::White)), Some(PieceColor::Black));
    assert_eq!(opponent_color_request(Some(true), None), None);
    assert_eq!(opponent_color_request(Some(false), Some(PieceColor::White)), None);
    assert_eq!(opponent_color_request(None, Some(PieceColor::Black)), None);
    assert_eq!(host_address(Some("192.168.1.4")), "192.168.1.4:2308");
    assert_eq!(host_address(None), "127.0.0.1:2308");
}

#[test]
fn joining_takes_the_color_left() {
    let mut l = GameLogic::default();
    let mut form = GameModeState::default();
    form.is_random_color = true;
    opponent_connected(&mut l, &mut form, Opponent::new_tcp(PieceColor::White), false);
    assert_eq!(form.selected_color, Some(PieceColor::Black));
    assert!(!form.is_random_color);
    assert!(l.game_board.is_flipped);
    assert!(l.opponent.as_ref().unwrap().game_started);

    let mut l = GameLogic::default();
    let mut form = GameModeState::default();
    form.selected_color = Some(PieceColor::White);
    opponent_connected(&mut l, &mut form, Opponent::new_tcp(PieceColor::Black), true);
    assert_eq!(form.selected_color, Some(PieceColor::White));
    assert!(!l.game_board.is_flipped);
    assert!(!l.opponent.as_ref().unwrap().game_started);
}

#[test]
fn lichess_codes_and_links() {
    assert_eq!(lichess_game_id("O8uBDzKS"), "O8uBDzKS");
    assert_eq!(lichess_game_id("https://lichess.org/O8uBDzKS"), "O8uBDzKS");
    assert_eq!(lichess_game_id("lichess.org/abc/black"), "black");
    assert_eq!(lichess_game_id("https://lichess.org/"), "");
    assert_eq!(lichess_game_id("example.org/xyz"), "example.org/xyz");
}

#[test]
fn joined_move_count_is_read_back() {
    for n in [0usize, 7, 10, 1234] {
        let text = init_moves_message(n);
        assert_eq!(text, format!("INIT_MOVES:{n}"));
        let mut l = GameLogic::default();
        l.opponent = Some(Opponent::new_lichess("abc".to_string(), PieceColor::Black, 0));
        l.execute_opponent_move(&text);
        assert_eq!(l.opponent.as_ref().unwrap().initial_move_count, n);
        assert_eq!(l.game_state, GameState::Playing);
    }
}

#[test]
fn lichess_game_setup_flips_for_black() {
    let mut l = GameLogic::default();
    let mut form = GameModeState::default();
    form.is_random_color = true;
    let mut ui = solo();
    lichess_game_started(&mut l, &mut form, &mut ui, Opponent::new_lichess("abc".to_string(), PieceColor::White, 0), PieceColor::Black);
    assert_eq!(form.selected_color, Some(PieceColor::Black));
    assert!(!form.is_random_color);
    assert!(l.game_board.is_flipped);
    assert!(l.opponent.is_some());
    assert_eq!(ui.current_page, Pages::Lichess);
}

#[test]
fn token_answers() {
    let mut ui = UiState::default();
    token_checked(&mut ui, Ok("magnus".to_string()));
    assert_eq!(ui.current_page, Pages::LichessMenu);
    assert_eq!(ui.current_popup, Some(Popups::Success));
    assert_eq!(
        ui.popup_message.as_deref(),
        Some("Lichess token saved successfully!\n\n Logged in as: magnus\n\n You can now use all Lichess features.")
    );
    let mut ui = solo();
    token_checked(&mut ui, Err("401".to_string()));
    assert_eq!(ui.current_page, Pages::Solo);
    assert_eq!(ui.current_popup, Some(Popups::Error));
    assert!(ui.popup_message.unwrap().starts_with("Invalid Lichess token.\n\nError: 401\n\n"));
}

fn a_puzzle() -> PuzzleGame {
    PuzzleGame::new(
        Puzzle {
            game: PuzzleSourceGame { pgn: String::new() },
            puzzle: PuzzleInfo { id: "p1".to_string(), rating: 1500, solution: vec!["e2e4".to_string()], themes: vec![] },
        },
        None,
    )
}

#[test]
fn running_out_of_time_marks_the_game() {
    let mut l = logic_at("rnbqkbnr/pppppppp/8/8/8/8/PPPPPPPP/RNBQKBNR w KQkq - 0 1");
    let mut clock = Clock::new(0);
    let mut ui = solo();
    assert!(!l.game_ended_by_time);
    assert_eq!(end_on_time_at(&mut l, &mut clock, &mut ui, false, 0), Some(PieceColor::White));
    assert!(l.game_ended_by_time);
    assert_eq!(l.player_turn, PieceColor::Black);
    assert_eq!(l.game_state, GameState::Checkmate);
}

#[test]
fn restarting_an_engine_game_keeps_the_engine_and_view() {
    let mut game = Game::new(GameBoard::default(), PieceColor::White);
    game.logic.execute_move(12, 28);
    game.logic.bot = Some(Bot::new("stockfish", false, 7, Some(2)));
    game.logic.game_ended_by_time = true;
    game.ui.display_mode = DisplayMode::ASCII;
    game.ui.selected_square = Some(3);
    let mut clock = None;
    let mut ui = UiState::default();
    ui.current_page = Pages::Bot;
    ui.current_popup = Some(Popups::EndScreen);
    let mut form = GameModeState::default();
    form.selected_color = Some(PieceColor::Black);
    let mut pz = Some(a_puzzle());
    let plan = restart_game_with(&mut game, &mut clock, &mut ui, &mut form, &mut pz, true);
    assert!(plan.bot_starts);
    assert_eq!(plan.clock_seconds, Some(600));
    assert!(pz.is_none());
    assert!(game.logic.game_board.move_history.is_empty());
    assert_eq!(game.logic.game_board.position_history.len(), 1);
    assert!(game.logic.game_board.is_flipped);
    assert!(!game.logic.game_ended_by_time);
    assert_eq!(game.logic.player_turn, PieceColor::White);
    let b = game.logic.bot.as_ref().unwrap();
    assert_eq!(b.engine_path, "stockfish");
    assert_eq!(b.depth, 7);
    assert_eq!(b.difficulty, Some(2));
    assert!(b.is_bot_starting);
    assert_eq!(game.ui.display_mode, DisplayMode::ASCII);
    assert_eq!(game.ui.selected_square, None);
    assert_eq!(ui.current_popup, None);
    assert_eq!(ui.current_page, Pages::Bot);
    assert!(clock.is_some());
    assert!(!clock.as_ref().unwrap().is_running());
}

#[test]
fn restarting_a_random_color_engine_game_tosses_again() {
    let mut game = Game::new(GameBoard::default(), PieceColor::White);
    game.logic.bot = Some(Bot::new("stockfish", false, 7, None));
    let mut clock = None;
    let mut ui = UiState::default();
    let mut form = GameModeState::default();
    form.is_random_color = true;
    let mut pz = None;
    let plan = restart_game_with(&mut game, &mut clock, &mut ui, &mut form, &mut pz, true);
    assert_eq!(form.selected_color, Some(PieceColor::White));
    assert!(!plan.bot_starts);
    assert!(!game.logic.game_board.is_flipped);
    let plan = restart_game(&mut game, &mut clock, &mut ui, &mut form, &mut pz);
    assert!(form.selected_color.is_some());
    assert_eq!(plan.bot_starts, form.selected_color == Some(PieceColor::Black));
}

#[test]
fn restarting_a_local_game_on_another_page_has_no_clock() {
    let mut game = Game::new(GameBoard::default(), PieceColor::White);
    let mut clock = Some(Clock::new(5));
    let mut ui = UiState::default();
    ui.current_page = Pages::Multiplayer;
    let mut form = GameModeState::default();
    let mut pz = None;
    let plan = restart_game_with(&mut game, &mut clock, &mut ui, &mut form, &mut pz, false);
    assert_eq!(plan.clock_seconds, None);
    assert!(clock.is_none());
    assert!(game.logic.bot.is_none());
}
