use chess_tui::chess::ChessMove;
use chess_tui::game_logic::game::{Game, GameLogic, GameState};
use chess_tui::game_logic::game_board::GameBoard;
use chess_tui::game_logic::opponent::{Opponent, OpponentKind};
use chess_tui::game_logic::bot::Bot;
use chess_tui::pieces::{PieceColor, PieceType};

const START: &str = "rnbqkbnr/pppppppp/8/8/8/8/PPPPPPPP/RNBQKBNR w KQkq - 0 1";
const AFTER_E4: &str = "rnbqkbnr/pppppppp/8/8/4P3/8/PPPP1PPP/RNBQKBNR b KQkq - 0 1";
const PROMOTION_READY: &str = "7k/4P3/8/8/8/8/8/4K3 w - - 0 1";

fn board_at(fen: &str) -> GameBoard {
    let mut b = GameBoard::default();
    b.position_history = vec![fen.to_string()];
    b
}

fn logic_at(fen: &str) -> GameLogic {
    let mut l = GameLogic::default();
    l.game_board = board_at(fen);
    l
}

#[test]
fn default_logic_starts_white_playing() {
    let l = GameLogic::default();
    assert_eq!(l.player_turn, PieceColor::White);
    assert_eq!(l.game_state, GameState::Playing);
    assert_eq!(l.game_board.position_history, vec![START.to_string()]);
    assert!(l.bot.is_none() && l.opponent.is_none());
}

#[test]
fn player_move_e2e4_is_recorded() {
    let mut l = GameLogic::default();
    l.execute_move(12, 28);
    assert_eq!(
        l.game_board.move_history,
        vec![ChessMove::Normal { role: PieceType::Pawn, from: 12, capture: None, to: 28, promotion: None }]
    );
    assert_eq!(l.game_board.position_history.len(), 2);
    assert_eq!(l.game_board.position_history[1], AFTER_E4);
    assert_eq!(l.game_board.consecutive_non_pawn_or_capture, 0);
}

#[test]
fn move_from_empty_square_changes_nothing() {
    let mut l = GameLogic::default();
    l.execute_move(28, 36);
    assert!(l.game_board.move_history.is_empty());
    assert_eq!(l.game_board.position_history.len(), 1);
}

#[test]
fn illegal_move_is_not_played() {
    let mut l = GameLogic::default();
    l.execute_move(12, 36);
    assert!(l.game_board.move_history.is_empty());
    assert_eq!(l.game_board.position_history.len(), 1);
}

#[test]
fn knight_move_counts_toward_fifty_moves() {
    let mut l = GameLogic::default();
    l.execute_move(6, 21);
    assert_eq!(l.game_board.consecutive_non_pawn_or_capture, 1);
}

#[test]
fn switching_turn_twice_restores_it() {
    let mut l = GameLogic::default();
    l.switch_player_turn();
    assert_eq!(l.player_turn, PieceColor::Black);
    l.switch_player_turn();
    assert_eq!(l.player_turn, PieceColor::White);
}

#[test]
fn sync_turn_follows_shown_position() {
    let mut l = GameLogic::default();
    l.execute_move(12, 28);
    l.sync_player_turn_with_position();
    assert_eq!(l.player_turn, PieceColor::Black);
}

#[test]
fn pawn_reaching_last_rank_waits_for_promotion() {
    let mut l = logic_at(PROMOTION_READY);
    l.execute_move(52, 60);
    assert!(l.game_board.is_latest_move_promotion());
    l.update_game_state();
    assert_eq!(l.game_state, GameState::Promotion);
    l.promote_piece(1, false);
    assert_eq!(l.game_state, GameState::Playing);
    assert_eq!(
        l.game_board.move_history.last(),
        Some(&ChessMove::Normal { role: PieceType::Pawn, from: 52, capture: None, to: 60, promotion: Some(PieceType::Rook) })
    );
    assert_eq!(l.game_board.position_history.len(), 2);
    assert_eq!(l.game_board.position_history[1], "4R2k/8/8/8/8/8/8/4K3 b - - 0 1");
}

#[test]
fn promotion_to_queen_in_solo_game_flips_board() {
    let mut l = logic_at(PROMOTION_READY);
    l.execute_move(52, 60);
    l.promote_piece(0, true);
    assert!(l.game_board.is_flipped);
    assert_eq!(l.game_board.position_history[1], "4Q2k/8/8/8/8/8/8/4K3 b - - 0 1");
}

#[test]
fn checkmate_is_detected_by_update() {
    let mut l = logic_at("7k/6Q1/6K1/8/8/8/8/8 b - - 0 1");
    l.update_game_state();
    assert_eq!(l.game_state, GameState::Checkmate);
}

#[test]
fn stalemate_is_a_draw() {
    let mut l = logic_at("7k/5Q2/6K1/8/8/8/8/8 b - - 0 1");
    l.update_game_state();
    assert_eq!(l.game_state, GameState::Draw);
}

#[test]
fn parse_move_text_plain() {
    assert_eq!(GameLogic::parse_opponent_move_string("e2e4"), Some((12, 28, None)));
}

#[test]
fn parse_move_text_with_promotion() {
    assert_eq!(GameLogic::parse_opponent_move_string("e7e8q"), Some((52, 60, Some(PieceType::Queen))));
    assert_eq!(GameLogic::parse_opponent_move_string("a2a1n"), Some((8, 0, Some(PieceType::Knight))));
    assert_eq!(GameLogic::parse_opponent_move_string("e7e8x"), Some((52, 60, None)));
}

#[test]
fn parse_move_text_rejects_short_and_bad() {
    assert_eq!(GameLogic::parse_opponent_move_string("e2e"), None);
    assert_eq!(GameLogic::parse_opponent_move_string("i2e4"), None);
    assert_eq!(GameLogic::parse_opponent_move_string("e9e4"), None);
    assert_eq!(GameLogic::parse_opponent_move_string("ée4"), None);
}

#[test]
fn sent_move_text_reads_back() {
    let o = Opponent::default();
    let m = ChessMove::Normal { role: PieceType::Pawn, from: 52, capture: None, to: 60, promotion: Some(PieceType::Bishop) };
    let text = o.move_message(&m, m.promotion());
    assert_eq!(text, "e7e8b");
    assert_eq!(GameLogic::parse_opponent_move_string(&text), Some((52, 60, Some(PieceType::Bishop))));
}

fn lichess_logic() -> GameLogic {
    let mut l = GameLogic::default();
    l.opponent = Some(Opponent::new_lichess("abc".to_string(), PieceColor::Black, 0));
    l
}

#[test]
fn init_moves_message_sets_counts() {
    let mut l = lichess_logic();
    assert!(!l.execute_opponent_move("INIT_MOVES:7"));
    let o = l.opponent.as_ref().unwrap();
    assert_eq!(o.initial_move_count, 7);
    assert_eq!(o.moves_received, 7);
}

#[test]
fn init_moves_message_with_bad_number_changes_nothing() {
    let mut l = lichess_logic();
    assert!(!l.execute_opponent_move("INIT_MOVES:x"));
    let o = l.opponent.as_ref().unwrap();
    assert_eq!(o.initial_move_count, 0);
    assert_eq!(o.moves_received, 0);
}

#[test]
fn game_status_messages_end_the_game() {
    let mut l = lichess_logic();
    l.execute_opponent_move("GAME_STATUS:resign");
    assert_eq!(l.game_state, GameState::Checkmate);
    let mut l = lichess_logic();
    l.execute_opponent_move("GAME_STATUS:stalemate");
    assert_eq!(l.game_state, GameState::Draw);
    let mut l = lichess_logic();
    l.execute_opponent_move("GAME_STATUS:started");
    assert_eq!(l.game_state, GameState::Playing);
}

#[test]
fn live_opponent_move_is_played() {
    let mut l = lichess_logic();
    l.opponent.as_mut().unwrap().opponent_will_move = true;
    assert!(l.execute_opponent_move("e2e4"));
    let o = l.opponent.as_ref().unwrap();
    assert_eq!(o.moves_received, 1);
    assert!(!o.opponent_will_move);
    assert_eq!(l.game_board.move_history.len(), 1);
    assert_eq!(l.game_board.position_history[1], AFTER_E4);
}

#[test]
fn duplicate_opponent_move_is_skipped() {
    let mut l = lichess_logic();
    assert!(l.execute_opponent_move("e2e4"));
    assert!(!l.execute_opponent_move("e2e4"));
    assert_eq!(l.game_board.move_history.len(), 1);
}

#[test]
fn replayed_moves_build_the_history_when_joining() {
    let mut l = GameLogic::default();
    l.opponent = Some(Opponent::new_lichess("abc".to_string(), PieceColor::Black, 2));
    assert!(!l.execute_opponent_move("e2e4"));
    assert_eq!(l.game_board.move_history.len(), 1);
    assert_eq!(l.game_board.position_history.len(), 2);
}

#[test]
fn empty_stream_read_changes_nothing() {
    let mut l = lichess_logic();
    assert!(!l.execute_opponent_move(""));
    assert_eq!(l.opponent.as_ref().unwrap().moves_received, 0);
}

#[test]
fn no_opponent_means_no_move() {
    let mut l = GameLogic::default();
    assert!(!l.execute_opponent_move("e2e4"));
    assert!(l.game_board.move_history.is_empty());
}

#[test]
fn bot_move_is_played_from_uci() {
    let mut l = GameLogic::default();
    l.bot = Some(Bot::new("stockfish", false, 10, None));
    l.execute_bot_move("g1f3");
    assert_eq!(
        l.game_board.move_history,
        vec![ChessMove::Normal { role: PieceType::Knight, from: 6, capture: None, to: 21, promotion: None }]
    );
    assert_eq!(l.game_board.position_history.len(), 2);
}

#[test]
fn illegal_bot_move_is_ignored() {
    let mut l = GameLogic::default();
    l.bot = Some(Bot::new("stockfish", false, 10, None));
    l.execute_bot_move("e2e5");
    assert!(l.game_board.move_history.is_empty());
    let mut l = GameLogic::default();
    l.execute_bot_move("e2e4");
    assert!(l.game_board.move_history.is_empty());
}

#[test]
fn promotion_is_sent_to_the_opponent() {
    let mut l = logic_at(PROMOTION_READY);
    l.opponent = Some(Opponent::new_tcp(PieceColor::Black));
    l.execute_move(52, 60);
    l.promote_piece(3, false);
    let text = l.handle_multiplayer_promotion();
    assert_eq!(text, Some("e7e8n".to_string()));
    assert!(l.opponent.as_ref().unwrap().opponent_will_move);
}

#[test]
fn no_promotion_message_without_opponent() {
    let mut l = GameLogic::default();
    assert_eq!(l.handle_multiplayer_promotion(), None);
}

#[test]
fn game_new_takes_board_and_turn() {
    let g = Game::new(board_at(AFTER_E4), PieceColor::Black);
    assert_eq!(g.logic.player_turn, PieceColor::Black);
    assert_eq!(g.logic.game_board.position_history, vec![AFTER_E4.to_string()]);
    assert_eq!(g.logic.game_state, GameState::Playing);
}

#[test]
fn clicking_selects_then_moves_a_piece() {
    let mut g = Game::new(GameBoard::default(), PieceColor::White);
    g.ui.cursor_coordinates = chess_tui::board::Coord::new(6, 4);
    let a = g.handle_cell_click(None);
    assert!(a.opponent_message.is_none() && !a.engine_to_move);
    assert_eq!(g.ui.selected_square, Some(12));
    assert_eq!(g.ui.cursor_coordinates, chess_tui::board::Coord::new(4, 4));
    g.ui.cursor_coordinates = chess_tui::board::Coord::new(4, 4);
    let a = g.handle_cell_click(None);
    assert!(a.opponent_message.is_none());
    assert_eq!(g.logic.game_board.move_history.len(), 1);
    assert_eq!(g.logic.player_turn, PieceColor::Black);
    assert_eq!(g.ui.selected_square, None);
    assert!(g.logic.game_board.is_flipped);
}

#[test]
fn clicking_an_opponent_piece_selects_nothing() {
    let mut g = Game::new(GameBoard::default(), PieceColor::White);
    g.ui.cursor_coordinates = chess_tui::board::Coord::new(1, 4);
    g.handle_cell_click(None);
    assert_eq!(g.ui.selected_square, None);
}

#[test]
fn tcp_game_refuses_clicks_out_of_turn() {
    let mut g = Game::new(GameBoard::default(), PieceColor::White);
    g.logic.opponent = Some(Opponent::new_tcp(PieceColor::White));
    g.ui.cursor_coordinates = chess_tui::board::Coord::new(6, 4);
    g.handle_cell_click(Some(PieceColor::Black));
    assert_eq!(g.ui.selected_square, None);
}

#[test]
fn moving_against_opponent_sends_the_move() {
    let mut g = Game::new(GameBoard::default(), PieceColor::White);
    g.logic.opponent = Some(Opponent::new_tcp(PieceColor::Black));
    g.ui.cursor_coordinates = chess_tui::board::Coord::new(6, 4);
    g.handle_cell_click(Some(PieceColor::White));
    g.ui.cursor_coordinates = chess_tui::board::Coord::new(4, 4);
    let a = g.handle_cell_click(Some(PieceColor::White));
    assert_eq!(a.opponent_message, Some("e2e4".to_string()));
    assert!(g.logic.opponent.as_ref().unwrap().opponent_will_move);
    assert!(!g.logic.game_board.is_flipped);
}

#[test]
fn moving_against_bot_hands_it_the_turn() {
    let mut g = Game::new(GameBoard::default(), PieceColor::White);
    g.logic.bot = Some(Bot::new("stockfish", false, 10, None));
    g.ui.cursor_coordinates = chess_tui::board::Coord::new(6, 4);
    g.handle_cell_click(None);
    g.ui.cursor_coordinates = chess_tui::board::Coord::new(4, 4);
    g.handle_cell_click(None);
    assert!(g.logic.bot.as_ref().unwrap().bot_will_move);
}

#[test]
fn promotion_popup_choice_with_bot_asks_engine() {
    let mut g = Game::new(board_at(PROMOTION_READY), PieceColor::White);
    g.logic.bot = Some(Bot::new("stockfish", false, 10, None));
    g.logic.execute_move(52, 60);
    g.logic.update_game_state();
    g.ui.promotion_cursor = 2;
    let a = g.handle_cell_click(None);
    assert!(a.engine_to_move);
    assert_eq!(g.ui.promotion_cursor, 0);
    assert_eq!(g.logic.game_board.position_history[1], "4B2k/8/8/8/8/8/8/4K3 b - - 0 1");
}

#[test]
fn kind_is_tcp_for_tcp_opponent() {
    let o = Opponent::new_tcp(PieceColor::White);
    assert!(matches!(o.kind, Some(OpponentKind::Tcp)));
}

#[test]
fn copies_of_a_game_drop_lichess_channels() {
    let mut l = GameLogic::default();
    l.execute_move(12, 28);
    l.bot = Some(Bot::new("stockfish", true, 5, None));
    l.opponent = Some(Opponent::new_lichess("abc".to_string(), PieceColor::Black, 3));
    let c = l.clone();
    assert_eq!(c.game_board.move_history, l.game_board.move_history);
    assert_eq!(c.game_board.position_history, l.game_board.position_history);
    assert_eq!(c.bot.as_ref().unwrap().engine_path, "stockfish");
    let o = c.opponent.as_ref().unwrap();
    assert!(o.kind.is_none());
    assert_eq!(o.initial_move_count, 3);
    l.opponent = Some(Opponent::new_tcp(PieceColor::White));
    let c = l.clone();
    assert!(matches!(c.opponent.unwrap().kind, Some(OpponentKind::Tcp)));
    let g = Game::new(GameBoard::default(), PieceColor::Black);
    let h = g.clone();
    assert_eq!(h.logic.player_turn, PieceColor::Black);
    assert_eq!(h.ui.cursor_coordinates, g.ui.cursor_coordinates);
}
