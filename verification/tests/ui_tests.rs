use chess_tui::board::{Coord, UNDEFINED_POSITION};
use chess_tui::constants::DisplayMode;
use chess_tui::game_logic::ui::{sort_coords, UI};

#[test]
fn default_view_is_fresh() {
    let ui = UI::default();
    assert_eq!(ui.cursor_coordinates, Coord::new(4, 4));
    assert_eq!(ui.selected_square, None);
    assert_eq!(ui.old_cursor_position, Coord::new(UNDEFINED_POSITION, UNDEFINED_POSITION));
    assert_eq!(ui.display_mode, DisplayMode::DEFAULT);
    assert!(ui.cursor_blink_visible);
}

#[test]
fn reset_keeps_display_mode() {
    let mut ui = UI::default();
    ui.display_mode = DisplayMode::ASCII;
    ui.cursor_coordinates = Coord::new(1, 1);
    ui.selected_square = Some(3);
    ui.reset();
    assert_eq!(ui.display_mode, DisplayMode::ASCII);
    assert_eq!(ui.cursor_coordinates, Coord::new(4, 4));
    assert_eq!(ui.selected_square, None);
}

#[test]
fn arrows_move_cursor_and_stop_at_edges() {
    let mut ui = UI::default();
    ui.cursor_coordinates = Coord::new(0, 7);
    ui.cursor_up(vec![]);
    ui.cursor_right(vec![]);
    assert_eq!(ui.cursor_coordinates, Coord::new(0, 7));
    ui.cursor_down(vec![]);
    ui.cursor_left(vec![]);
    assert_eq!(ui.cursor_coordinates, Coord::new(1, 6));
}

#[test]
fn selected_piece_cursor_steps_through_sorted_targets() {
    let mut ui = UI::default();
    ui.selected_square = Some(12);
    let targets = vec![Coord::new(5, 4), Coord::new(4, 4)];
    ui.move_selected_piece_cursor(true, 1, targets.clone());
    assert_eq!(ui.selected_piece_cursor, 0);
    assert_eq!(ui.cursor_coordinates, Coord::new(4, 4));
    ui.cursor_right(targets.clone());
    assert_eq!(ui.selected_piece_cursor, 1);
    assert_eq!(ui.cursor_coordinates, Coord::new(5, 4));
    ui.cursor_right(targets.clone());
    assert_eq!(ui.selected_piece_cursor, 0);
    ui.cursor_left(targets.clone());
    assert_eq!(ui.selected_piece_cursor, 1);
    assert_eq!(ui.cursor_coordinates, Coord::new(5, 4));
}

#[test]
fn no_targets_makes_cursor_undefined() {
    let mut ui = UI::default();
    ui.selected_square = Some(12);
    ui.move_selected_piece_cursor(false, 1, vec![]);
    assert_eq!(ui.cursor_coordinates, Coord::undefined());
}

#[test]
fn promotion_cursor_wraps_both_ways() {
    let mut ui = UI::default();
    ui.cursor_left_promotion();
    assert_eq!(ui.promotion_cursor, 3);
    ui.cursor_right_promotion();
    assert_eq!(ui.promotion_cursor, 0);
    ui.cursor_right_promotion();
    assert_eq!(ui.promotion_cursor, 1);
}

#[test]
fn unselect_restores_cursor() {
    let mut ui = UI::default();
    ui.old_cursor_position = Coord::new(6, 4);
    ui.selected_square = Some(12);
    ui.selected_piece_cursor = 1;
    ui.cursor_coordinates = Coord::new(4, 4);
    ui.unselect_cell();
    assert_eq!(ui.selected_square, None);
    assert_eq!(ui.selected_piece_cursor, 0);
    assert_eq!(ui.cursor_coordinates, Coord::new(6, 4));
    let mut plain = UI::default();
    plain.unselect_cell();
    assert_eq!(plain.cursor_coordinates, Coord::new(4, 4));
}

#[test]
fn cursor_blinks_every_second_tick_when_selected() {
    let mut ui = UI::default();
    ui.selected_square = Some(12);
    ui.update_cursor_blink();
    assert!(ui.cursor_blink_visible);
    assert_eq!(ui.cursor_blink_counter, 1);
    ui.update_cursor_blink();
    assert!(!ui.cursor_blink_visible);
    assert_eq!(ui.cursor_blink_counter, 0);
    ui.selected_square = None;
    ui.update_cursor_blink();
    assert!(ui.cursor_blink_visible);
}

#[test]
fn sort_orders_by_row_then_column() {
    let v = vec![Coord::new(3, 1), Coord::new(0, 5), Coord::new(3, 0), Coord::new(0, 5)];
    let s = sort_coords(&v);
    assert_eq!(s, vec![Coord::new(0, 5), Coord::new(0, 5), Coord::new(3, 0), Coord::new(3, 1)]);
    let mut expected = v.clone();
    expected.sort();
    assert_eq!(s, expected);
}

use chess_tui::game_logic::game::GameLogic;
use chess_tui::game_logic::opponent::Opponent;
use chess_tui::game_logic::ui::{castling_destination, CellLook};
use chess_tui::game_logic::game_board::GameBoard;
use chess_tui::pieces::PieceColor;

#[test]
fn clicks_map_to_board_cells() {
    let mut ui = UI::default();
    assert_eq!(ui.board_cell_at(5, 5), None);
    ui.top_x = 10;
    ui.top_y = 2;
    ui.width = 4;
    ui.height = 2;
    assert_eq!(ui.board_cell_at(10, 2), Some(Coord::new(0, 0)));
    assert_eq!(ui.board_cell_at(23, 7), Some(Coord::new(2, 3)));
    assert_eq!(ui.board_cell_at(42, 2), None);
    assert_eq!(ui.board_cell_at(9, 2), None);
    assert_eq!(ui.promotion_choice_at(22, 3), Some(3));
    assert_eq!(ui.promotion_choice_at(26, 3), None);
    assert_eq!(ui.promotion_choice_at(10, 4), None);
}

#[test]
fn castling_targets_for_corner_rooks() {
    assert_eq!(castling_destination(7), Some(6));
    assert_eq!(castling_destination(0), Some(2));
    assert_eq!(castling_destination(63), Some(62));
    assert_eq!(castling_destination(56), Some(58));
    assert_eq!(castling_destination(12), None);
}

#[test]
fn last_move_highlight_depends_on_who_played_it() {
    let ui = UI::default();
    let mut logic = GameLogic::default();
    assert_eq!(ui.get_last_move_squares(&logic), (None, None));
    logic.execute_move(12, 28);
    assert_eq!(ui.get_last_move_squares(&logic), (Some(12), Some(28)));
    let mut o = Opponent::default();
    o.color = PieceColor::Black;
    logic.opponent = Some(o);
    assert_eq!(ui.get_last_move_squares(&logic), (None, None));
    logic.opponent = Some(Opponent::new_tcp(PieceColor::Black));
    assert_eq!(ui.get_last_move_squares(&logic), (Some(12), Some(28)));
}

#[test]
fn targets_are_marked_as_shown() {
    let mut ui = UI::default();
    let mut logic = GameLogic::default();
    assert!(ui.get_authorized_positions_for_render(&logic, Some(12)).is_empty());
    ui.selected_square = Some(12);
    assert_eq!(
        ui.get_authorized_positions_for_render(&logic, Some(12)),
        vec![Coord::new(5, 4), Coord::new(4, 4)]
    );
    logic.game_board.is_flipped = true;
    assert_eq!(
        ui.get_authorized_positions_for_render(&logic, Some(12)),
        vec![Coord::new(2, 3), Coord::new(3, 3)]
    );
    assert!(ui.get_authorized_positions_for_render(&logic, Some(52)).is_empty());
}

#[test]
fn cells_are_drawn_by_priority() {
    let mut ui = UI::default();
    let mut logic = GameLogic::default();
    assert_eq!(ui.cell_look(&logic, 4, 4), CellLook::Cursor);
    assert_eq!(ui.cell_look(&logic, 0, 0), CellLook::Light);
    assert_eq!(ui.cell_look(&logic, 0, 1), CellLook::Dark);
    ui.mouse_used = true;
    assert_eq!(ui.cell_look(&logic, 4, 4), CellLook::Light);
    ui.mouse_used = false;

    ui.selected_square = Some(12);
    ui.cursor_coordinates = Coord::new(5, 4);
    ui.cursor_blink_visible = false;
    assert_eq!(ui.cell_look(&logic, 6, 4), CellLook::Selected);
    assert_eq!(ui.cell_look(&logic, 5, 4), CellLook::Reachable);
    assert_eq!(ui.cell_look(&logic, 4, 4), CellLook::Reachable);
    ui.cursor_blink_visible = true;
    assert_eq!(ui.cell_look(&logic, 5, 4), CellLook::Cursor);

    let mut ui = UI::default();
    logic.execute_move(12, 28);
    assert_eq!(ui.cell_look(&logic, 6, 4), CellLook::LastMove);
    ui.cursor_coordinates = Coord::new(0, 0);
    assert_eq!(ui.cell_look(&logic, 4, 4), CellLook::LastMove);
}

#[test]
fn king_in_check_is_marked() {
    let mut b = GameBoard::default();
    b.position_history = vec!["rnb1kbnr/pppp1ppp/8/4p3/6Pq/5P2/PPPPP2P/RNBQKBNR w KQkq - 1 3".to_string()];
    let mut logic = GameLogic::default();
    logic.game_board = b;
    let mut ui = UI::default();
    ui.cursor_coordinates = Coord::new(0, 0);
    assert_eq!(ui.cell_look(&logic, 7, 4), CellLook::CheckedKing);
    logic.game_board.is_flipped = true;
    assert_eq!(ui.cell_look(&logic, 0, 3), CellLook::CheckedKing);
}

#[test]
fn board_area_centres_the_board() {
    let mut ui = UI::default();
    ui.set_board_area(10, 2, 85, 42);
    assert_eq!(ui.width, 10);
    assert_eq!(ui.height, 5);
    assert_eq!(ui.top_x, 10 + 2);
    assert_eq!(ui.top_y, 2 + 1);
}
