use chess_tui::constants::{DisplayMode, Pages, Popups};
use chess_tui::game_logic::game_board::GameBoard;
use chess_tui::pieces::PieceColor;
use chess_tui::state::{display_mode_for_skin, GameModeState, MainMenuItems, MultiplayerState, Skin, ThemeState, UiState};

fn skin(name: &str) -> Skin {
    Skin { name: name.to_string(), display_mode: DisplayMode::DEFAULT }
}

#[test]
fn skins_cycle_round_the_list() {
    let mut t = ThemeState::default();
    assert_eq!(t.get_next_skin().name, "Default");
    t.available_skins = vec![skin("Default"), skin("Ocean"), skin("Forest")];
    t.selected_skin_name = "Forest".to_string();
    assert_eq!(t.get_skin(true).name, "Default");
    assert_eq!(t.get_skin(false).name, "Ocean");
    assert_eq!(t.get_next_skin().name, "Default");
    assert_eq!(t.get_previous_skin().name, "Ocean");
    t.selected_skin_name = "Missing".to_string();
    assert_eq!(t.get_skin(true).name, "Ocean");
}

#[test]
fn previous_then_next_skin_comes_back() {
    let mut t = ThemeState::default();
    t.available_skins = vec![skin("Default"), skin("Ocean"), skin("Forest")];
    for name in ["Default", "Ocean", "Forest"] {
        t.selected_skin_name = name.to_string();
        let before = t.get_previous_skin().name;
        t.selected_skin_name = before;
        assert_eq!(t.get_next_skin().name, name);
        t.selected_skin_name = name.to_string();
        let after = t.get_next_skin().name;
        t.selected_skin_name = after;
        assert_eq!(t.get_previous_skin().name, name);
    }
}

#[test]
fn time_controls_have_names_and_lengths() {
    let mut g = GameModeState::default();
    assert_eq!(g.get_time_control_name(), "Rapid");
    assert_eq!(g.get_time_control_seconds(), Some(600));
    g.clock_cursor = 5;
    assert_eq!(g.get_time_control_seconds(), None);
    g.clock_cursor = 6;
    g.custom_time_minutes = 3;
    assert_eq!(g.get_time_control_seconds(), Some(180));
    assert_eq!(g.get_time_control_description(), "Custom time: 3 minutes per side");
}

#[test]
fn color_selector_cycles_both_ways() {
    let mut g = GameModeState::default();
    g.select_next_color_option();
    assert_eq!((g.selected_color, g.is_random_color), (Some(PieceColor::Black), false));
    g.select_next_color_option();
    assert_eq!((g.selected_color, g.is_random_color), (None, true));
    g.select_previous_color_option();
    assert_eq!((g.selected_color, g.is_random_color), (Some(PieceColor::Black), false));
}

#[test]
fn color_is_settled_before_play() {
    let mut g = GameModeState::default();
    g.resolve_selected_color_with(false);
    assert_eq!(g.selected_color, Some(PieceColor::White));
    let mut r = GameModeState::default();
    r.is_random_color = true;
    r.resolve_selected_color_with(false);
    assert_eq!(r.selected_color, Some(PieceColor::Black));
    let mut toss = GameModeState::default();
    toss.is_random_color = true;
    toss.resolve_selected_color();
    assert!(toss.selected_color.is_some());
    toss.reset_selected_color();
    assert_eq!(toss.selected_color, None);
}

#[test]
fn menu_items_by_cursor() {
    assert_eq!(MainMenuItems::from_cursor(1), MainMenuItems::LichessMenu);
    assert_eq!(MainMenuItems::from_cursor(5), MainMenuItems::Credit);
    assert_eq!(MainMenuItems::from_cursor(9), MainMenuItems::GameModeMenu);
}

#[test]
fn menu_cursor_wraps_and_popups_toggle() {
    let mut u = UiState::default();
    u.menu_cursor_up(6);
    assert_eq!(u.menu_cursor, 5);
    u.menu_cursor_down(6);
    assert_eq!(u.menu_cursor, 0);
    u.toggle_help_popup();
    assert_eq!(u.current_popup, Some(Popups::Help));
    u.toggle_help_popup();
    assert_eq!(u.current_popup, None);
    u.show_message_popup("oops".to_string(), Popups::Error);
    assert_eq!(u.current_popup, Some(Popups::Error));
    u.current_page = Pages::Solo;
    u.navigate_to_homepage();
    assert_eq!(u.current_page, Pages::Home);
}

#[test]
fn multiplayer_reset_forgets_the_host() {
    let mut m = MultiplayerState::default();
    m.hosting = Some(true);
    m.host_ip = Some("127.0.0.1:2308".to_string());
    m.reset();
    assert_eq!(m.hosting, None);
    assert_eq!(m.host_ip, None);
}

#[test]
fn check_and_material_are_read_from_the_position() {
    let mut b = GameBoard::default();
    b.position_history = vec!["4k3/8/8/8/8/8/8/4K2R b - - 0 1".to_string()];
    assert!(!b.is_getting_checked(PieceColor::Black));
    b.position_history = vec!["4k3/8/8/8/8/8/8/4R1K1 b - - 0 1".to_string()];
    assert!(b.is_getting_checked(PieceColor::Black));
    assert!(!b.is_getting_checked(PieceColor::White));
    b.position_history = vec!["4k3/8/8/8/8/8/8/4K3 w - - 0 1".to_string()];
    assert!(b.is_draw());
}

#[test]
fn reconstruction_trusts_a_differing_expected_position() {
    let mut b = GameBoard::default();
    let expected = "rnbqkbnr/pppp1ppp/8/4p3/4P3/8/PPPP1PPP/RNBQKBNR w KQkq - 0 2";
    b.reconstruct_history("e2e4", Some(expected));
    assert_eq!(b.position_history.last().unwrap(), expected);
    let mut same = GameBoard::default();
    same.reconstruct_history("e2e4", Some("rnbqkbnr/pppppppp/8/8/4P3/8/PPPP1PPP/RNBQKBNR b KQkq - 5 9"));
    assert_eq!(same.position_history.last().unwrap(), "rnbqkbnr/pppppppp/8/8/4P3/8/PPPP1PPP/RNBQKBNR b KQkq - 0 1");
}

#[test]
fn skin_names_decide_the_piece_set() {
    assert_eq!(display_mode_for_skin("Default"), DisplayMode::DEFAULT);
    assert_eq!(display_mode_for_skin("ASCII"), DisplayMode::ASCII);
    assert_eq!(display_mode_for_skin("ascii"), DisplayMode::CUSTOM);
    assert_eq!(display_mode_for_skin("Ocean"), DisplayMode::CUSTOM);
}

#[test]
fn cycling_selects_and_loads_the_skin() {
    let mut t = ThemeState::default();
    t.available_skins = vec![skin("Default"), skin("ASCII"), skin("Ocean")];
    let (s, mode) = t.cycle_skin(true);
    assert_eq!(s.name, "ASCII");
    assert_eq!(mode, DisplayMode::ASCII);
    assert_eq!(t.selected_skin_name, "ASCII");
    assert_eq!(t.loaded_skin.as_ref().map(|l| l.name.clone()), Some("ASCII".to_string()));
    let (s, mode) = t.cycle_skin(true);
    assert_eq!(s.name, "Ocean");
    assert_eq!(mode, DisplayMode::CUSTOM);
    let (s, mode) = t.cycle_skin(false);
    assert_eq!(s.name, "ASCII");
    assert_eq!(mode, DisplayMode::ASCII);

    let mut empty = ThemeState::default();
    let (s, mode) = empty.cycle_skin(false);
    assert_eq!(s.name, "Default");
    assert_eq!(mode, DisplayMode::DEFAULT);
}
