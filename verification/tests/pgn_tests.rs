use chess_tui::game_logic::pgn_loader::parse_pgn;
use chess_tui::pieces::PieceColor;

#[test]
fn test_parse_simple_pgn() {
    let pgn = "1. e4 e5 2. Nf3 Nc6";
    let result = parse_pgn(pgn);
    assert!(result.is_ok());
    let (game_board, player_turn) = result.unwrap();
    assert_eq!(player_turn, PieceColor::White);
    assert_eq!(game_board.move_history.len(), 4);
}

#[test]
fn headers_and_results_are_skipped() {
    let pgn = "[Event \"Test\"]\n\n1. e4 e5 2. Nf3 Nc6 3. Bb5\n";
    let (game_board, player_turn) = parse_pgn(pgn).unwrap();
    assert_eq!(game_board.move_history.len(), 5);
    assert_eq!(player_turn, PieceColor::Black);
    assert_eq!(game_board.position_history.len(), 6);
    let (b, _) = parse_pgn("1. d4 d5 1-0").unwrap();
    assert_eq!(b.move_history.len(), 2);
}

#[test]
fn comments_and_numbers_are_dropped() {
    let (b, turn) = parse_pgn("1. e4 {best} 12 e5 1/2-1/2").unwrap();
    assert_eq!(b.move_history.len(), 2);
    assert_eq!(turn, PieceColor::White);
}

#[test]
fn captures_are_counted() {
    let (b, _) = parse_pgn("1. e4 d5 2. exd5").unwrap();
    assert_eq!(b.taken_pieces.len(), 1);
    assert_eq!(b.consecutive_non_pawn_or_capture, 0);
    let (b, _) = parse_pgn("1. Nf3 Nf6 2. Nc3").unwrap();
    assert_eq!(b.consecutive_non_pawn_or_capture, 3);
}

#[test]
fn bad_text_is_refused_with_its_move() {
    assert_eq!(parse_pgn("1. e4 Zz9").err(), Some("Failed to parse move 'Zz9': invalid san".to_string()));
    assert_eq!(parse_pgn("1. e5").err(), Some("Illegal move 'e5': illegal san".to_string()));
}

#[test]
fn ambiguous_move_is_refused() {
    assert_eq!(
        parse_pgn("1. Nc3 a6 2. Nf3 a5 3. Nd4 h6 4. Nb5").err(),
        Some("Illegal move 'Nb5': ambiguous san".to_string())
    );
    assert!(parse_pgn("1. Nc3 a6 2. Nf3 a5 3. Nd4 h6 4. Ncb5").is_ok());
}

#[test]
fn empty_pgn_has_no_moves() {
    assert_eq!(parse_pgn("").err(), Some("No moves found in PGN".to_string()));
    assert_eq!(parse_pgn("   \n").err(), Some("No moves found in PGN".to_string()));
}

#[test]
fn the_side_to_move_follows_the_number_of_moves() {
    let (b, turn) = parse_pgn("1. e4 e5 2. Nf3").unwrap();
    assert_eq!(b.move_history.len(), 3);
    assert_eq!(turn, PieceColor::Black);
    let (b, turn) = parse_pgn("1. d4 d5").unwrap();
    assert_eq!(b.move_history.len(), 2);
    assert_eq!(turn, PieceColor::White);
}
