use chess_tui::constants::{Pages, Popups};
use chess_tui::game_logic::clock::Clock;
use chess_tui::game_logic::game::{Game, GameState};
use chess_tui::game_logic::game_board::GameBoard;
use chess_tui::game_logic::opponent::Opponent;
use chess_tui::game_logic::puzzle::{Puzzle, PuzzleGame, PuzzleInfo, PuzzleSourceGame};
use chess_tui::pieces::PieceColor;
use chess_tui::state::UiState;
use chess_tui::tick::{opponent_read_is_due, tick, tick_at};

fn puzzle(solution: &[&str]) -> PuzzleGame {
    PuzzleGame::new(
        Puzzle {
            game: PuzzleSourceGame { pgn: String::new() },
            puzzle: PuzzleInfo {
                id: "p1".to_string(),
                rating: 1500,
                solution: solution.iter().map(|s| s.to_string()).collect(),
                themes: vec![],
            },
        },
        None,
    )
}

fn solo() -> UiState {
    let mut ui = UiState::default();
    ui.current_page = Pages::Solo;
    ui
}

fn start() -> Game {
    Game::new(GameBoard::default(), PieceColor::White)
}

#[test]
fn a_quiet_tick_changes_nothing() {
    let mut g = start();
    let mut clock: Option<Clock> = None;
    let mut ui = solo();
    let mut pz: Option<PuzzleGame> = None;
    let r = tick(&mut g, &mut clock, &mut ui, &mut pz, None, Some("e2e4".to_string()));
    assert!(r.submission.is_none() && r.out_of_time.is_none() && !r.opponent_moved);
    assert_eq!(g.logic.game_board.move_history.len(), 0);
    assert_eq!(ui.current_popup, None);
}

/// A puzzle whose first move was played and whose answer is waiting.
fn puzzle_waiting() -> (Game, PuzzleGame) {
    let mut g = start();
    g.logic.execute_move(12, 28);
    g.logic.switch_player_turn();
    let mut pg = puzzle(&["e2e4", "e7e5"]);
    let v = pg.validate_move("e2e4", &mut g, None);
    assert!(v.correct);
    (g, pg)
}

#[test]
fn the_puzzle_answer_waits_a_second() {
    let (mut g, pg) = puzzle_waiting();
    let mut pz = Some(pg);
    let mut clock: Option<Clock> = None;
    let mut ui = solo();
    let r = tick_at(&mut g, &mut clock, &mut ui, &mut pz, None, 10, 0, None);
    assert!(r.submission.is_none());
    assert_eq!(g.logic.game_board.move_history.len(), 1);
    assert!(pz.as_ref().unwrap().opponent_move_pending.is_some());
    let r = tick_at(&mut g, &mut clock, &mut ui, &mut pz, None, 2_000_000_000, 0, None);
    assert!(r.submission.is_none() && !r.opponent_moved);
    assert_eq!(g.logic.game_board.move_history.len(), 2);
    assert_eq!(pz.as_ref().unwrap().solution_index, 2);
    assert_eq!(ui.current_popup, Some(Popups::PuzzleEndScreen));
    assert_eq!(ui.popup_message, Some("Puzzle solved! Well done!".to_string()));
}

#[test]
fn a_solved_puzzle_is_submitted_with_a_token() {
    let (mut g, pg) = puzzle_waiting();
    let mut pz = Some(pg);
    let mut clock: Option<Clock> = None;
    let mut ui = solo();
    let r = tick_at(&mut g, &mut clock, &mut ui, &mut pz, Some("tok".to_string()), 1_000_000_000, 0, None);
    let s = r.submission.unwrap();
    assert!(s.win);
    assert_eq!(s.token, "tok");
}

#[test]
fn running_out_of_time_ends_the_game() {
    let mut g = start();
    let mut clock = Some(Clock::new(0));
    let mut ui = solo();
    let mut pz: Option<PuzzleGame> = None;
    let r = tick_at(&mut g, &mut clock, &mut ui, &mut pz, None, 0, 0, None);
    assert_eq!(r.out_of_time, Some(PieceColor::White));
    assert_eq!(g.logic.game_state, GameState::Checkmate);
    assert_eq!(g.logic.player_turn, PieceColor::Black);
    assert!(g.logic.game_ended_by_time);
    assert!(!clock.as_ref().unwrap().is_running());
    assert_eq!(ui.current_popup, Some(Popups::EndScreen));
}

#[test]
fn time_left_changes_nothing() {
    let mut g = start();
    let mut clock = Some(Clock::new(60));
    let mut ui = solo();
    let mut pz: Option<PuzzleGame> = None;
    let r = tick_at(&mut g, &mut clock, &mut ui, &mut pz, None, 0, 5_000_000_000, None);
    assert_eq!(r.out_of_time, None);
    assert_eq!(g.logic.game_state, GameState::Playing);
    assert_eq!(ui.current_popup, None);
}

#[test]
fn a_lichess_move_is_played_and_the_turn_passes() {
    let mut g = start();
    g.logic.opponent = Some(Opponent::new_lichess("abc".to_string(), PieceColor::White, 0));
    assert!(opponent_read_is_due(&g, false));
    assert!(!opponent_read_is_due(&g, true));
    let mut clock: Option<Clock> = None;
    let mut ui = solo();
    let mut pz: Option<PuzzleGame> = None;
    let r = tick_at(&mut g, &mut clock, &mut ui, &mut pz, None, 0, 0, Some("e2e4".to_string()));
    assert!(r.opponent_moved);
    assert_eq!(g.logic.game_board.move_history.len(), 1);
    assert_eq!(g.logic.player_turn, PieceColor::Black);
}

#[test]
fn a_tcp_opponent_is_not_read_on_the_players_turn() {
    let mut g = start();
    g.logic.opponent = Some(Opponent::new_tcp(PieceColor::Black));
    assert!(!opponent_read_is_due(&g, false));
    let mut clock: Option<Clock> = None;
    let mut ui = solo();
    let mut pz: Option<PuzzleGame> = None;
    let r = tick_at(&mut g, &mut clock, &mut ui, &mut pz, None, 0, 0, Some("e7e5".to_string()));
    assert!(!r.opponent_moved);
    assert_eq!(g.logic.game_board.move_history.len(), 0);
    assert_eq!(g.logic.player_turn, PieceColor::White);
}

#[test]
fn a_tcp_move_on_the_opponents_turn_is_played() {
    let mut g = start();
    g.logic.opponent = Some(Opponent::new_tcp(PieceColor::White));
    assert!(opponent_read_is_due(&g, false));
    let mut clock: Option<Clock> = None;
    let mut ui = solo();
    let mut pz: Option<PuzzleGame> = None;
    let r = tick_at(&mut g, &mut clock, &mut ui, &mut pz, None, 0, 0, Some("d2d4".to_string()));
    assert!(r.opponent_moved);
    assert_eq!(g.logic.game_board.move_history.len(), 1);
    assert_eq!(g.logic.player_turn, PieceColor::Black);
}

#[test]
fn clock_reads_agree_with_the_time_given() {
    let c = Clock::new(0);
    assert!(c.any_time_up());
    assert_eq!(c.get_time_up_color(), Some(PieceColor::White));
    let c = Clock::new(30);
    assert!(!c.any_time_up());
    assert_eq!(c.get_time_up_color(), None);
    assert_eq!(c.elapsed_in_turn(), 0);
    let c = Clock::with_remaining_ms(5_000, 0);
    assert_eq!(c.get_time_up_color(), Some(PieceColor::Black));
}

#[test]
fn a_stopped_clock_keeps_its_time_and_formats_it() {
    let mut c = Clock::new(90);
    c.stop();
    assert!(!c.is_running());
    assert_eq!(c.format_time(PieceColor::White), "01:30");
    assert_eq!(c.format_time(PieceColor::Black), "01:30");
    let mut c = Clock::with_remaining_ms(59_500, 61_000);
    c.start(PieceColor::White);
    c.stop();
    assert!(!c.is_running());
    assert_eq!(c.format_time(PieceColor::Black), "01:01");
    let t = c.format_time(PieceColor::White);
    assert!(t.starts_with("59.") || t.starts_with("58."));
}
