use chess_tui::chess::{initial_position, normalize_fen};
use chess_tui::board::{flip_square_if_needed, Coord};
use chess_tui::chess::ChessMove;
use chess_tui::color::{adapt_color, nearest_ansi256, TermColor};
use chess_tui::game_logic::bot::{bot_difficulty_depth, bot_difficulty_elo, Bot};
use chess_tui::game_logic::clock::Clock;
use chess_tui::game_logic::game_board::GameBoard;
use chess_tui::pieces::{PieceColor, PieceType};
use chess_tui::text::{has_utf8_len_at_least, parse_usize};

const START: &str = "rnbqkbnr/pppppppp/8/8/8/8/PPPPPPPP/RNBQKBNR w KQkq - 0 1";

fn played(moves: &[(u8, u8)]) -> GameBoard {
    let mut b = GameBoard::default();
    for (f, t) in moves {
        let m = b.execute_move(*f, *t, None).expect("legal move");
        b.move_history.push(m);
    }
    b
}

#[test]
fn execute_move_records_positions_and_taken_pieces() {
    let b = played(&[(12, 28), (51, 35), (28, 35)]);
    assert_eq!(b.position_history.len(), 4);
    assert_eq!(b.taken_pieces.len(), 1);
    assert_eq!(b.black_taken_pieces(), vec![PieceType::Pawn]);
    assert!(b.white_taken_pieces().is_empty());
}

#[test]
fn history_navigation_goes_back_and_forth() {
    let mut b = played(&[(12, 28), (52, 36)]);
    assert!(b.navigate_history_previous(false));
    assert_eq!(b.history_position_index, Some(1));
    assert!(b.navigate_history_previous(false));
    assert_eq!(b.position_ref(), START);
    assert!(!b.navigate_history_previous(false));
    assert!(b.navigate_history_next(false));
    assert!(b.navigate_history_next(false));
    assert_eq!(b.history_position_index, Some(2));
    assert!(b.navigate_history_next(false));
    assert_eq!(b.history_position_index, None);
    assert!(!b.navigate_history_next(false));
}

#[test]
fn solo_navigation_turns_the_board_with_the_side_to_move() {
    let mut b = played(&[(12, 28), (52, 36)]);
    b.navigate_history_previous(true);
    assert!(b.is_flipped);
    assert_eq!(b.original_flip_state, Some(false));
    b.navigate_history_next(true);
    assert!(!b.is_flipped);
}

#[test]
fn truncating_history_starts_a_new_line() {
    let mut b = played(&[(12, 28), (52, 36), (6, 21)]);
    b.truncate_history_at(1);
    assert_eq!(b.position_history.len(), 2);
    assert_eq!(b.move_history.len(), 1);
    assert_eq!(b.history_position_index, None);
    let before = b.position_history.clone();
    b.truncate_history_at(9);
    assert_eq!(b.position_history, before);
}

#[test]
fn threefold_repetition_is_a_draw() {
    let b = played(&[(6, 21), (62, 45), (21, 6), (45, 62), (6, 21), (62, 45), (21, 6), (45, 62)]);
    assert!(b.is_draw_by_repetition());
    assert!(b.is_draw());
    let short = played(&[(6, 21), (62, 45), (21, 6), (45, 62)]);
    assert!(!short.is_draw_by_repetition());
}

#[test]
fn fifty_moves_is_a_draw() {
    let mut b = GameBoard::default();
    b.consecutive_non_pawn_or_capture = 49;
    assert!(!b.is_draw());
    b.increment_consecutive_non_pawn_or_capture(PieceType::Knight, None);
    assert!(b.is_draw());
    b.increment_consecutive_non_pawn_or_capture(PieceType::Pawn, None);
    assert_eq!(b.consecutive_non_pawn_or_capture, 0);
}

#[test]
fn pieces_and_targets_are_read_from_the_position() {
    let b = GameBoard::default();
    assert_eq!(b.get_role_at_square(4), Some(PieceType::King));
    assert_eq!(b.get_piece_color_at_square(60), Some(PieceColor::Black));
    assert!(!b.is_square_occupied(28));
    assert_eq!(b.get_authorized_positions(PieceColor::White, 12), vec![20, 28]);
    assert!(b.get_authorized_positions(PieceColor::Black, 12).is_empty());
    assert_eq!(b.get_king_coordinates(PieceColor::White), Coord::new(7, 4));
    let mut flipped = GameBoard::default();
    flipped.flip_the_board();
    assert_eq!(flipped.get_king_coordinates(PieceColor::White), Coord::new(0, 3));
}

#[test]
fn san_of_recorded_moves() {
    let b = played(&[(12, 28), (57, 42)]);
    assert_eq!(b.move_to_san(0), "e4");
    assert_eq!(b.move_to_san(1), "Nc6");
    assert_eq!(b.move_to_san(5), "");
}

#[test]
fn reconstructing_replays_uci_moves() {
    let mut b = GameBoard::default();
    b.reconstruct_history("e2e4 e7e5 junk g1f3", None);
    assert_eq!(b.move_history.len(), 3);
    assert_eq!(b.position_history.len(), 4);
    let mut blank = played(&[(12, 28)]);
    blank.reconstruct_history("   ", None);
    assert_eq!(blank.move_history.len(), 1);
}

#[test]
fn reconstructing_stops_at_an_illegal_move() {
    let mut b = GameBoard::default();
    b.reconstruct_history("e2e4 e2e4 d7d5", None);
    assert_eq!(b.move_history.len(), 1);
}

#[test]
fn reset_goes_back_to_the_start() {
    let mut b = played(&[(12, 28)]);
    b.reset();
    assert!(b.move_history.is_empty());
    assert_eq!(b.position_history, vec![START.to_string()]);
    assert_eq!(b.fen_position(), START);
}

#[test]
fn promotion_request_picks_the_promotion() {
    let mut b = GameBoard::default();
    b.position_history = vec!["7k/4P3/8/8/8/8/8/4K3 w - - 0 1".to_string()];
    let m = b.execute_move(52, 60, Some(PieceType::Knight));
    assert_eq!(
        m,
        Some(ChessMove::Normal { role: PieceType::Pawn, from: 52, capture: None, to: 60, promotion: Some(PieceType::Knight) })
    );
}

#[test]
fn nearest_palette_entries() {
    assert_eq!(nearest_ansi256(0, 0, 0), 16);
    assert_eq!(nearest_ansi256(255, 255, 255), 231);
    assert_eq!(nearest_ansi256(128, 128, 128), 244);
    assert_eq!(nearest_ansi256(255, 0, 0), 196);
    assert_eq!(adapt_color(false, TermColor::Rgb(0, 0, 255)), TermColor::Indexed(21));
    assert_eq!(adapt_color(true, TermColor::Rgb(0, 0, 255)), TermColor::Rgb(0, 0, 255));
}

#[test]
fn clock_counts_down_while_running() {
    let mut c = Clock::new(60);
    assert_eq!(c.get_time_at(PieceColor::White, 0), 60_000_000_000);
    c.start(PieceColor::White);
    assert_eq!(c.get_time_at(PieceColor::White, 1_500_000_000), 58_500_000_000);
    assert_eq!(c.get_time_at(PieceColor::Black, 1_500_000_000), 60_000_000_000);
    assert_eq!(c.format_time_at(PieceColor::White, 1_500_000_000), "58.500");
    assert!(c.is_time_up_at(PieceColor::White, 61_000_000_000));
    assert_eq!(c.get_time_up_color_at(61_000_000_000), Some(PieceColor::White));
    c.stop_at(10_000_000_000);
    assert_eq!(c.get_time_at(PieceColor::White, 99_000_000_000), 50_000_000_000);
    let d = Clock::default();
    assert_eq!(d.format_time_at(PieceColor::Black, 0), "10:00");
}

#[test]
fn bot_presets_follow_the_tables() {
    assert_eq!(bot_difficulty_elo(), vec![400, 900, 1500, 2700]);
    assert_eq!(bot_difficulty_depth(), vec![1, 4, 8, 20]);
    let b = Bot::new("sf", true, 12, Some(1));
    assert_eq!(b.effective_depth(), 4);
    assert_eq!(b.movetime_ms(), Some(120));
    assert_eq!(b.elo(), Some(900));
    let full = Bot::new("sf", true, 12, None);
    assert_eq!(full.effective_depth(), 12);
    assert_eq!(full.elo(), None);
}

#[test]
fn flipping_a_square_twice_restores_it() {
    assert_eq!(flip_square_if_needed(12, true), 51);
    assert_eq!(flip_square_if_needed(flip_square_if_needed(12, true), true), 12);
    assert_eq!(flip_square_if_needed(12, false), 12);
    assert_eq!(Coord::from_square(12), Coord::new(6, 4));
    assert_eq!(Coord::new(6, 4).to_square(), Some(12));
    assert_eq!(Coord::undefined().to_square(), None);
}

#[test]
fn text_helpers() {
    assert_eq!(parse_usize(&"+42".chars().collect()), Some(42));
    assert_eq!(parse_usize(&"4x".chars().collect()), None);
    assert_eq!(parse_usize(&"".chars().collect()), None);
    assert_eq!(parse_usize(&"99999999999999999999999".chars().collect()), None);
    assert!(has_utf8_len_at_least(&"éé".chars().collect(), 4));
    assert!(!has_utf8_len_at_least(&"abc".chars().collect(), 4));
}

#[test]
fn engine_path_with_arguments_is_split() {
    let b = Bot::new("/opt/homebrew/bin/gnuchess --uci", false, 10, None);
    let (program, args) = b.engine_command();
    assert_eq!(program.iter().collect::<String>(), "/opt/homebrew/bin/gnuchess");
    assert_eq!(args.len(), 1);
    assert_eq!(args[0].iter().collect::<String>(), "--uci");
    let plain = Bot::new("/usr/bin/stockfish", false, 10, None);
    let (program, args) = plain.engine_command();
    assert_eq!(program.iter().collect::<String>(), "/usr/bin/stockfish");
    assert!(args.is_empty());
}

#[test]
fn positions_are_normalized_only_when_legal() {
    let start = initial_position();
    assert_eq!(normalize_fen(&start), Some(start.clone()));
    assert_eq!(normalize_fen("not a fen"), None);
    let n = normalize_fen("4k3/8/8/8/8/8/8/4K2R b K - 3 40").unwrap();
    assert_eq!(normalize_fen(&n), Some(n.clone()));
}
