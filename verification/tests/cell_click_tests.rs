use chess_tui::board::Coord;
use chess_tui::cell_click::{carry_out_click, process_cell_click, try_mouse_move};
use chess_tui::constants::{Pages, Popups};
use chess_tui::game_logic::game::{Game, GameState};
use chess_tui::game_logic::game_board::GameBoard;
use chess_tui::game_logic::puzzle::{Puzzle, PuzzleGame, PuzzleInfo, PuzzleSourceGame};
use chess_tui::mouse::ClickPlan;
use chess_tui::pieces::PieceColor;
use chess_tui::state::UiState;

const PROMOTING: &str = "8/P7/8/8/8/8/8/k6K w - - 0 1";

fn puzzle(solution: &[&str]) -> PuzzleGame {
    PuzzleGame::new(
        Puzzle {
            game: PuzzleSourceGame { pgn: String::new() },
            puzzle: PuzzleInfo {
                id: "p1".to_string(),
                rating: 1500,
                solution: solution.iter().map(|s| s.to_string()).collect(),
                themes: vec![],
            },
        },
        None,
    )
}

fn game_at(fen: &str) -> Game {
    let mut b = GameBoard::default();
    b.position_history = vec![fen.to_string()];
    Game::new(b, PieceColor::White)
}

fn page(p: Pages) -> UiState {
    let mut ui = UiState::default();
    ui.current_page = p;
    ui
}

/// Puts the cursor on the square in column `col`, row `row` of the board as shown.
fn cursor(g: &mut Game, row: u8, col: u8) {
    g.ui.cursor_coordinates = Coord { row, col };
}

#[test]
fn key_is_refused_on_the_other_sides_turn_in_lichess() {
    let mut g = Game::new(GameBoard::default(), PieceColor::White);
    cursor(&mut g, 6, 4);
    let mut ui = page(Pages::Lichess);
    let mut pz: Option<PuzzleGame> = None;
    let mut pending = None;
    let r = process_cell_click(&mut g, &mut ui, &mut pz, &mut pending, Some(PieceColor::Black), None);
    assert!(r.actions.opponent_message.is_none() && !r.actions.engine_to_move && r.submission.is_none());
    assert_eq!(g.ui.selected_square, None);
    assert_eq!(g.logic.game_board.move_history.len(), 0);
}

#[test]
fn key_selects_then_moves_in_a_solo_game() {
    let mut g = Game::new(GameBoard::default(), PieceColor::White);
    cursor(&mut g, 6, 4);
    let mut ui = page(Pages::Solo);
    let mut pz: Option<PuzzleGame> = None;
    let mut pending = None;
    process_cell_click(&mut g, &mut ui, &mut pz, &mut pending, None, None);
    assert_eq!(g.ui.selected_square, Some(12));
    cursor(&mut g, 4, 4);
    let r = process_cell_click(&mut g, &mut ui, &mut pz, &mut pending, None, None);
    assert!(!r.actions.engine_to_move && r.submission.is_none());
    assert_eq!(g.logic.game_board.move_history.len(), 1);
    assert_eq!(g.logic.player_turn, PieceColor::Black);
    assert_eq!(g.ui.selected_square, None);
    assert!(g.logic.game_board.is_flipped);
    assert_eq!(ui.current_popup, None);
}

#[test]
fn right_puzzle_move_schedules_the_answer_and_keeps_the_board_unflipped() {
    let mut g = Game::new(GameBoard::default(), PieceColor::White);
    let mut ui = page(Pages::Solo);
    let mut pz = Some(puzzle(&["e2e4", "e7e5", "g1f3"]));
    let mut pending = None;
    cursor(&mut g, 6, 4);
    process_cell_click(&mut g, &mut ui, &mut pz, &mut pending, None, None);
    cursor(&mut g, 4, 4);
    let r = process_cell_click(&mut g, &mut ui, &mut pz, &mut pending, None, None);
    assert!(r.submission.is_none());
    let p = pz.as_ref().unwrap();
    assert_eq!(p.solution_index, 1);
    assert_eq!(p.opponent_move_pending, Some(("e7e5".to_string(), 1)));
    assert_eq!(g.logic.game_board.move_history.len(), 1);
    assert!(!g.logic.game_board.is_flipped);
    assert_eq!(ui.current_popup, None);
}

#[test]
fn wrong_puzzle_move_is_taken_back_with_an_error() {
    let mut g = Game::new(GameBoard::default(), PieceColor::White);
    let mut ui = page(Pages::Solo);
    let mut pz = Some(puzzle(&["e2e4", "e7e5"]));
    let mut pending = None;
    cursor(&mut g, 6, 3);
    process_cell_click(&mut g, &mut ui, &mut pz, &mut pending, None, Some("tok".to_string()));
    cursor(&mut g, 4, 3);
    let r = process_cell_click(&mut g, &mut ui, &mut pz, &mut pending, None, Some("tok".to_string()));
    let s = r.submission.unwrap();
    assert!(!s.win);
    assert_eq!(s.puzzle_id, "p1");
    assert!(pz.as_ref().unwrap().has_mistakes);
    assert_eq!(g.logic.game_board.move_history.len(), 0);
    assert_eq!(g.logic.game_board.position_history.len(), 1);
    assert_eq!(g.logic.player_turn, PieceColor::White);
    assert_eq!(ui.current_popup, Some(Popups::Error));
    assert_eq!(ui.popup_message, Some("Wrong move! Try again.".to_string()));
}

#[test]
fn puzzle_promotion_is_checked_with_the_piece_chosen() {
    let mut g = game_at(PROMOTING);
    let mut ui = page(Pages::Solo);
    let mut pz = Some(puzzle(&["a7a8q"]));
    let mut pending = None;
    cursor(&mut g, 1, 0);
    process_cell_click(&mut g, &mut ui, &mut pz, &mut pending, None, None);
    cursor(&mut g, 0, 0);
    process_cell_click(&mut g, &mut ui, &mut pz, &mut pending, None, None);
    assert_eq!(g.logic.game_state, GameState::Promotion);
    assert_eq!(pending, Some((48, 56)));
    g.ui.promotion_cursor = 0;
    let r = process_cell_click(&mut g, &mut ui, &mut pz, &mut pending, None, None);
    assert!(r.submission.is_none());
    assert_eq!(pending, None);
    assert_eq!(g.logic.game_state, GameState::Playing);
    assert_eq!(pz.as_ref().unwrap().solution_index, 1);
    assert_eq!(ui.current_popup, Some(Popups::PuzzleEndScreen));
    assert_eq!(ui.popup_message, Some("Puzzle solved! Well done!".to_string()));
    assert!(!g.logic.game_board.is_flipped);
}

#[test]
fn wrong_promotion_piece_in_a_puzzle_is_taken_back() {
    let mut g = game_at(PROMOTING);
    let mut ui = page(Pages::Solo);
    let mut pz = Some(puzzle(&["a7a8q"]));
    let mut pending = None;
    cursor(&mut g, 1, 0);
    process_cell_click(&mut g, &mut ui, &mut pz, &mut pending, None, None);
    cursor(&mut g, 0, 0);
    process_cell_click(&mut g, &mut ui, &mut pz, &mut pending, None, None);
    g.ui.promotion_cursor = 3;
    process_cell_click(&mut g, &mut ui, &mut pz, &mut pending, None, None);
    assert_eq!(g.logic.game_state, GameState::Playing);
    assert_eq!(g.logic.game_board.move_history.len(), 0);
    assert_eq!(g.logic.game_board.position_history, vec![PROMOTING.to_string()]);
    assert_eq!(ui.current_popup, Some(Popups::Error));
    assert!(pz.as_ref().unwrap().has_mistakes);
}

#[test]
fn promotion_out_of_a_puzzle_turns_the_board() {
    let mut g = game_at(PROMOTING);
    let mut ui = page(Pages::Solo);
    let mut pz: Option<PuzzleGame> = None;
    let mut pending = None;
    cursor(&mut g, 1, 0);
    process_cell_click(&mut g, &mut ui, &mut pz, &mut pending, None, None);
    cursor(&mut g, 0, 0);
    process_cell_click(&mut g, &mut ui, &mut pz, &mut pending, None, None);
    assert_eq!(g.logic.game_state, GameState::Promotion);
    assert_eq!(pending, None);
    g.ui.promotion_cursor = 1;
    process_cell_click(&mut g, &mut ui, &mut pz, &mut pending, None, None);
    assert_eq!(g.logic.game_state, GameState::Playing);
    assert_eq!(g.logic.game_board.move_history.len(), 1);
    assert!(g.logic.game_board.position_history.last().unwrap().starts_with("R7/"));
    assert!(g.logic.game_board.is_flipped);
}

#[test]
fn mouse_move_needs_a_selected_piece_that_can_go_there() {
    let mut g = Game::new(GameBoard::default(), PieceColor::White);
    let mut ui = page(Pages::Solo);
    let mut pz: Option<PuzzleGame> = None;
    let mut pending = None;
    let r = try_mouse_move(&mut g, &mut ui, &mut pz, &mut pending, None, None, 28, Coord { row: 4, col: 4 });
    assert!(r.is_none());
    g.ui.selected_square = Some(12);
    let r = try_mouse_move(&mut g, &mut ui, &mut pz, &mut pending, None, None, 36, Coord { row: 3, col: 4 });
    assert!(r.is_none());
    assert_eq!(g.logic.game_board.move_history.len(), 0);
    let r = try_mouse_move(&mut g, &mut ui, &mut pz, &mut pending, None, None, 28, Coord { row: 4, col: 4 });
    assert!(r.is_some());
    assert_eq!(g.logic.game_board.move_history.len(), 1);
    assert_eq!(g.logic.player_turn, PieceColor::Black);
}

#[test]
fn click_plans_are_carried_out() {
    let mut g = Game::new(GameBoard::default(), PieceColor::White);
    let mut ui = page(Pages::Solo);
    let mut pz: Option<PuzzleGame> = None;
    let mut pending = None;
    assert!(carry_out_click(ClickPlan::Nothing, &mut g, &mut ui, &mut pz, &mut pending, None, None).is_none());
    g.ui.selected_square = Some(12);
    let plan = ClickPlan::MoveOrSelect { castle_to: None, to: 11 };
    assert!(carry_out_click(plan, &mut g, &mut ui, &mut pz, &mut pending, None, None).is_none());
    assert_eq!(g.ui.selected_square, Some(11));
    let plan = ClickPlan::Move { to: 27 };
    assert!(carry_out_click(plan, &mut g, &mut ui, &mut pz, &mut pending, None, None).is_some());
    assert_eq!(g.logic.game_board.move_history.len(), 1);
}
