use chess_tui::chess::{uci_of_move, ChessMove, Piece};
use chess_tui::constants::{DisplayMode, Pages, Popups};
use chess_tui::game_logic::bot::Bot;
use chess_tui::game_logic::clock::Clock;
use chess_tui::game_logic::game::{Game, GameLogic, GameState};
use chess_tui::game_logic::game_board::GameBoard;
use chess_tui::pieces::{PieceColor, PieceType};
use chess_tui::resume::{
    bot_config_for_save, clock_state_at, current_resume_mode, join_moves, player_color_of_word, player_color_word,
    restore_board, resume_from_saved, resume_loaded, saved_game_of, should_write_resume, BotConfig, ClockState, ResumeMode, ResumeOutcome,
    SavedGame,
};
use chess_tui::state::{BotState, GameModeState, UiState};

const START: &str = "rnbqkbnr/pppppppp/8/8/8/8/PPPPPPPP/RNBQKBNR w KQkq - 0 1";
const AFTER_E4_E5: &str = "rnbqkbnr/pppp1ppp/8/4p3/4P3/8/PPPP1PPP/RNBQKBNR w KQkq - 0 2";

fn save(mode: ResumeMode, fen: &str, moves: &[&str]) -> SavedGame {
    SavedGame {
        mode,
        fen: fen.to_string(),
        is_flipped: false,
        taken_pieces: vec![],
        bot: None,
        clock: None,
        moves_uci: moves.iter().map(|m| m.to_string()).collect(),
    }
}

#[test]
fn only_local_and_engine_games_are_saved() {
    assert_eq!(current_resume_mode(Pages::Solo, false, false), Some(ResumeMode::Local));
    assert_eq!(current_resume_mode(Pages::Bot, true, false), Some(ResumeMode::Bot));
    assert_eq!(current_resume_mode(Pages::Solo, true, false), None);
    assert_eq!(current_resume_mode(Pages::Bot, false, false), None);
    assert_eq!(current_resume_mode(Pages::Multiplayer, false, true), None);
    assert_eq!(current_resume_mode(Pages::Solo, false, true), None);
    assert_eq!(current_resume_mode(Pages::Home, false, false), None);
}

#[test]
fn saves_are_written_after_new_moves() {
    let local = Some(ResumeMode::Local);
    assert!(should_write_resume(local, GameState::Playing, 3, false, None));
    assert!(should_write_resume(local, GameState::Playing, 3, false, Some(2)));
    assert!(!should_write_resume(local, GameState::Playing, 3, false, Some(3)));
    assert!(should_write_resume(local, GameState::Playing, 3, true, Some(3)));
    assert!(!should_write_resume(local, GameState::Playing, 0, true, None));
    assert!(!should_write_resume(local, GameState::Promotion, 3, true, None));
    assert!(!should_write_resume(local, GameState::Checkmate, 3, true, None));
    assert!(!should_write_resume(None, GameState::Playing, 3, true, None));
}

#[test]
fn side_words() {
    assert_eq!(player_color_word(Some(PieceColor::Black)), "black");
    assert_eq!(player_color_word(Some(PieceColor::White)), "white");
    assert_eq!(player_color_word(None), "white");
    assert_eq!(player_color_of_word("black"), PieceColor::Black);
    assert_eq!(player_color_of_word("white"), PieceColor::White);
    assert_eq!(player_color_of_word("Black"), PieceColor::White);
}

#[test]
fn engine_settings_to_save() {
    let mut form = GameModeState::default();
    form.selected_color = Some(PieceColor::Black);
    form.is_random_color = true;
    let bot = Some(Bot::new("stockfish", true, 12, Some(2)));
    assert!(bot_config_for_save(&None, &Some("stockfish".to_string()), &form).is_none());
    assert!(bot_config_for_save(&bot, &None, &form).is_none());
    let c = bot_config_for_save(&bot, &Some("stockfish".to_string()), &form).unwrap();
    assert_eq!(c.path, "stockfish");
    assert_eq!(c.depth, 12);
    assert_eq!(c.difficulty, Some(2));
    assert_eq!(c.player_color, "black");
    assert!(c.is_random_color);
}

#[test]
fn clock_to_save() {
    let mut form = GameModeState::default();
    form.clock_cursor = 6;
    form.custom_time_minutes = 7;
    assert_eq!(clock_state_at(&None, 0, &form), None);
    let clock = Clock::new(60);
    assert_eq!(
        clock_state_at(&Some(clock), 5_000_000_000, &form),
        Some(ClockState { white_ms: 60_000, black_ms: 60_000, clock_cursor: 6, custom_minutes: 7 })
    );
    let mut running = Clock::new(60);
    running.start(PieceColor::White);
    let cs = clock_state_at(&Some(running), 1_500_000_000, &form).unwrap();
    assert_eq!(cs.white_ms, 58_500);
    assert_eq!(cs.black_ms, 60_000);
}

#[test]
fn moves_are_joined_with_spaces() {
    assert_eq!(join_moves(&vec![]), "");
    assert_eq!(join_moves(&vec!["e2e4".to_string()]), "e2e4");
    assert_eq!(join_moves(&vec!["e2e4".to_string(), "e7e5".to_string(), "g1f3".to_string()]), "e2e4 e7e5 g1f3");
}

#[test]
fn unreadable_position_gives_nothing() {
    assert!(restore_board(&save(ResumeMode::Local, "not a fen", &[])).is_none());
}

#[test]
fn save_without_moves_restores_the_position() {
    let mut s = save(ResumeMode::Local, AFTER_E4_E5, &[]);
    s.is_flipped = true;
    s.taken_pieces = vec![Piece { color: PieceColor::Black, role: PieceType::Knight }];
    let b = restore_board(&s).unwrap();
    assert_eq!(b.position_history, vec![AFTER_E4_E5.to_string()]);
    assert!(b.move_history.is_empty());
    assert_eq!(b.taken_pieces, s.taken_pieces);
    assert!(b.is_flipped);
}

#[test]
fn save_with_moves_replays_them() {
    let s = save(ResumeMode::Local, AFTER_E4_E5, &["e2e4", "e7e5"]);
    let b = restore_board(&s).unwrap();
    assert_eq!(b.move_history.len(), 2);
    assert_eq!(b.position_history.len(), 3);
    assert_eq!(b.position_history[0], START);
    assert_eq!(b.position_history[2], AFTER_E4_E5);
}

#[test]
fn local_game_is_taken_up() {
    let mut game = Game::new(GameBoard::default(), PieceColor::White);
    game.ui.display_mode = DisplayMode::ASCII;
    game.ui.top_x = 9;
    let mut clock = None;
    let mut ui = UiState::default();
    ui.current_popup = Some(Popups::Help);
    let mut form = GameModeState::default();
    let mut bots = BotState::default();
    let mut last: Option<usize> = Some(5);
    let mut s = save(ResumeMode::Local, AFTER_E4_E5, &["e2e4", "e7e5"]);
    s.clock = Some(ClockState { white_ms: 30_000, black_ms: 20_000, clock_cursor: 6, custom_minutes: 5 });
    let r = resume_from_saved(&mut game, &mut clock, &mut ui, &mut form, &mut bots, &s, &mut last);
    assert_eq!(r, ResumeOutcome::Resumed { bot_to_move: false });
    assert_eq!(ui.current_page, Pages::Solo);
    assert_eq!(ui.current_popup, None);
    assert_eq!(game.ui.display_mode, DisplayMode::ASCII);
    assert_eq!(game.ui.top_x, 0);
    assert_eq!(game.logic.player_turn, PieceColor::White);
    assert_eq!(game.logic.game_board.move_history.len(), 2);
    let c = clock.unwrap();
    assert!(c.is_running());
    assert_eq!(c.active_color, Some(PieceColor::White));
    assert_eq!(form.clock_cursor, 6);
    assert_eq!(form.custom_time_minutes, 5);
}

#[test]
fn engine_game_is_taken_up_with_its_settings() {
    let mut game = Game::new(GameBoard::default(), PieceColor::White);
    let mut clock = Some(Clock::new(10));
    let mut ui = UiState::default();
    let mut form = GameModeState::default();
    let mut bots = BotState::default();
    let mut last: Option<usize> = Some(5);
    let mut s = save(ResumeMode::Bot, AFTER_E4_E5, &["e2e4", "e7e5"]);
    s.bot = Some(BotConfig {
        path: "stockfish".to_string(),
        depth: 8,
        difficulty: Some(1),
        player_color: "black".to_string(),
        is_random_color: false,
    });
    let r = resume_from_saved(&mut game, &mut clock, &mut ui, &mut form, &mut bots, &s, &mut last);
    assert_eq!(r, ResumeOutcome::Resumed { bot_to_move: true });
    assert!(clock.is_none());
    assert_eq!(ui.current_page, Pages::Bot);
    assert_eq!(form.selected_color, Some(PieceColor::Black));
    assert_eq!(bots.chess_engine_path, Some("stockfish".to_string()));
    assert_eq!(bots.bot_depth, 8);
    assert_eq!(bots.bot_difficulty, Some(1));
    let bot = game.logic.bot.unwrap();
    assert!(bot.is_bot_starting);
    assert_eq!(bot.depth, 8);
}

#[test]
fn engine_game_without_settings_is_refused() {
    let mut game = Game::new(GameBoard::default(), PieceColor::White);
    let mut clock = None;
    let mut ui = UiState::default();
    let mut form = GameModeState::default();
    let mut bots = BotState::default();
    let mut last: Option<usize> = Some(5);
    let s = save(ResumeMode::Bot, START, &[]);
    let r = resume_from_saved(&mut game, &mut clock, &mut ui, &mut form, &mut bots, &s, &mut last);
    assert_eq!(r, ResumeOutcome::MissingBotConfig);
    assert_eq!(ui.current_popup, Some(Popups::Error));
    assert_eq!(ui.popup_message.as_deref(), Some("Saved bot game is missing its engine config."));
    assert_eq!(ui.current_page, Pages::Home);
}

#[test]
fn corrupted_save_changes_nothing_but_the_screen() {
    let mut game = Game::new(GameBoard::default(), PieceColor::White);
    game.ui.top_x = 9;
    let mut clock = None;
    let mut ui = UiState::default();
    let mut form = GameModeState::default();
    let mut bots = BotState::default();
    let mut last: Option<usize> = Some(5);
    let s = save(ResumeMode::Local, "8/8/8 w", &["e2e4"]);
    let r = resume_from_saved(&mut game, &mut clock, &mut ui, &mut form, &mut bots, &s, &mut last);
    assert_eq!(r, ResumeOutcome::Corrupted);
    assert_eq!(ui.popup_message.as_deref(), Some("Saved game is corrupted and cannot be resumed."));
    assert_eq!(game.ui.top_x, 9);
    assert_eq!(ui.current_page, Pages::Home);
}

#[test]
fn moves_are_written_as_uci() {
    assert_eq!(uci_of_move(&ChessMove::Normal { role: PieceType::Pawn, from: 12, capture: None, to: 28, promotion: None }), "e2e4");
    assert_eq!(
        uci_of_move(&ChessMove::Normal { role: PieceType::Pawn, from: 52, capture: None, to: 60, promotion: Some(PieceType::Knight) }),
        "e7e8n"
    );
    assert_eq!(uci_of_move(&ChessMove::Castle { king: 4, rook: 7 }), "e1g1");
    assert_eq!(uci_of_move(&ChessMove::Castle { king: 60, rook: 56 }), "e8c8");
    assert_eq!(uci_of_move(&ChessMove::EnPassant { from: 36, to: 45 }), "e5f6");
    assert_eq!(uci_of_move(&ChessMove::Put { role: PieceType::Knight, to: 28 }), "N@e4");
}

#[test]
fn a_game_is_saved_and_taken_up_again() {
    let mut logic = GameLogic::default();
    logic.execute_move(12, 28);
    logic.switch_player_turn();
    logic.execute_move(52, 36);
    logic.switch_player_turn();
    let form = GameModeState::default();
    let s = saved_game_of(&logic, ResumeMode::Local, &None, 0, &form, &None);
    assert_eq!(s.moves_uci, vec!["e2e4".to_string(), "e7e5".to_string()]);
    assert_eq!(s.fen, AFTER_E4_E5);
    assert!(s.bot.is_none());
    assert!(s.clock.is_none());
    let b = restore_board(&s).unwrap();
    assert_eq!(b.move_history, logic.game_board.move_history);
    assert_eq!(b.position_history, logic.game_board.position_history);
}

#[test]
fn engine_game_save_keeps_the_engine() {
    let mut logic = GameLogic::default();
    logic.bot = Some(Bot::new("stockfish", false, 9, None));
    let mut form = GameModeState::default();
    form.selected_color = Some(PieceColor::White);
    let s = saved_game_of(&logic, ResumeMode::Bot, &Some(Clock::new(60)), 0, &form, &Some("stockfish".to_string()));
    let c = s.bot.unwrap();
    assert_eq!(c.path, "stockfish");
    assert_eq!(c.depth, 9);
    assert_eq!(c.player_color, "white");
    assert_eq!(s.clock.unwrap().white_ms, 60_000);
    assert!(s.moves_uci.is_empty());
    assert_eq!(s.fen, START);
}

#[test]
fn without_a_save_nothing_is_resumed() {
    let mut game = Game::new(GameBoard::default(), PieceColor::White);
    game.logic.execute_move(12, 28);
    let mut clock = None;
    let mut ui = UiState::default();
    let mut form = GameModeState::default();
    let mut bots = BotState::default();
    let mut last: Option<usize> = Some(5);
    let r = resume_loaded(&mut game, &mut clock, &mut ui, &mut form, &mut bots, None, &mut last);
    assert_eq!(r, ResumeOutcome::NoSave);
    assert_eq!(last, Some(5));
    assert_eq!(ui.popup_message.as_deref(), Some("No saved game to resume."));
    assert_eq!(ui.current_popup, Some(Popups::Error));
    assert_eq!(ui.current_page, Pages::Home);
    assert_eq!(game.logic.game_board.move_history.len(), 1);
}

#[test]
fn a_save_with_a_legal_position_is_resumed() {
    let mut game = Game::new(GameBoard::default(), PieceColor::White);
    let mut clock = None;
    let mut ui = UiState::default();
    let mut form = GameModeState::default();
    let mut bots = BotState::default();
    let mut last: Option<usize> = Some(5);
    let s = save(ResumeMode::Local, "4k3/8/8/8/8/8/8/4K2R b K - 3 40", &[]);
    let r = resume_loaded(&mut game, &mut clock, &mut ui, &mut form, &mut bots, Some(&s), &mut last);
    assert_eq!(r, ResumeOutcome::Resumed { bot_to_move: false });
    assert_eq!(game.logic.player_turn, PieceColor::Black);
    assert_eq!(ui.current_page, Pages::Solo);
    assert_eq!(last, Some(0));
    assert!(restore_board(&s).is_some());
}
