use chess_tui::constants::Pages;
use chess_tui::menu::{GameModeMenu, MenuAction, MenuKey};
use chess_tui::pieces::PieceColor;
use chess_tui::state::{AvailableGameMode, GameModeState};

fn menu() -> GameModeMenu {
    GameModeMenu {
        menu_cursor: 0,
        current_page: Pages::GameModeMenu,
        form: GameModeState::default(),
        hosting: None,
        bot_depth: 10,
        bot_difficulty: None,
    }
}

#[test]
fn menu_cursor_wraps_up_and_down() {
    let mut m = menu();
    assert_eq!(m.handle_game_mode_menu_page_events(MenuKey::Up), MenuAction::Nothing);
    assert_eq!(m.menu_cursor, 2);
    m.handle_game_mode_menu_page_events(MenuKey::Char('j'));
    assert_eq!(m.menu_cursor, 0);
    m.handle_game_mode_menu_page_events(MenuKey::Left);
    assert_eq!(m.menu_cursor, 0);
}

#[test]
fn local_game_starts_with_rapid_clock() {
    let mut m = menu();
    m.handle_game_mode_menu_page_events(MenuKey::Enter);
    assert!(m.form.form_active);
    assert_eq!(m.form.selection, Some(AvailableGameMode::Local));
    let a = m.handle_game_mode_menu_page_events(MenuKey::Enter);
    assert_eq!(a, MenuAction::StartLocalGame { clock_seconds: Some(600) });
    assert_eq!(m.current_page, Pages::Solo);
    assert!(!m.form.form_active);
}

#[test]
fn custom_time_is_edited_then_used() {
    let mut m = menu();
    m.handle_game_mode_menu_page_events(MenuKey::Char(' '));
    for _ in 0..5 {
        m.handle_game_mode_menu_page_events(MenuKey::Right);
    }
    assert_eq!(m.form.clock_cursor, 6);
    m.handle_game_mode_menu_page_events(MenuKey::Enter);
    assert_eq!(m.form.form_cursor, 1);
    m.handle_game_mode_menu_page_events(MenuKey::Char('l'));
    assert_eq!(m.form.custom_time_minutes, 11);
    let a = m.handle_game_mode_menu_page_events(MenuKey::Enter);
    assert_eq!(a, MenuAction::StartLocalGame { clock_seconds: Some(660) });
}

#[test]
fn host_picks_color_then_starts() {
    let mut m = menu();
    m.handle_game_mode_menu_page_events(MenuKey::Down);
    m.handle_game_mode_menu_page_events(MenuKey::Enter);
    m.handle_game_mode_menu_page_events(MenuKey::Enter);
    assert_eq!(m.hosting, Some(true));
    assert_eq!(m.form.form_cursor, 1);
    m.handle_game_mode_menu_page_events(MenuKey::Right);
    assert_eq!(m.form.selected_color, Some(PieceColor::Black));
    m.handle_game_mode_menu_page_events(MenuKey::Enter);
    assert_eq!(m.current_page, Pages::Multiplayer);
}

#[test]
fn joining_starts_at_once() {
    let mut m = menu();
    m.menu_cursor = 1;
    m.handle_game_mode_menu_page_events(MenuKey::Enter);
    m.handle_game_mode_menu_page_events(MenuKey::Right);
    assert_eq!(m.hosting, Some(false));
    m.handle_game_mode_menu_page_events(MenuKey::Enter);
    assert_eq!(m.current_page, Pages::Multiplayer);
}

#[test]
fn bot_form_edits_depth_and_difficulty() {
    let mut m = menu();
    m.menu_cursor = 2;
    m.handle_game_mode_menu_page_events(MenuKey::Enter);
    m.handle_game_mode_menu_page_events(MenuKey::Enter);
    m.handle_game_mode_menu_page_events(MenuKey::Enter);
    assert_eq!(m.form.selected_color, Some(PieceColor::White));
    assert_eq!(m.form.form_cursor, 2);
    assert_eq!(m.handle_game_mode_menu_page_events(MenuKey::Right), MenuAction::SaveConfig);
    assert_eq!(m.bot_depth, 11);
    m.handle_game_mode_menu_page_events(MenuKey::Enter);
    assert_eq!(m.handle_game_mode_menu_page_events(MenuKey::Left), MenuAction::SaveConfig);
    assert_eq!(m.bot_difficulty, Some(3));
    m.handle_game_mode_menu_page_events(MenuKey::Right);
    assert_eq!(m.bot_difficulty, None);
    m.handle_game_mode_menu_page_events(MenuKey::Enter);
    assert_eq!(m.current_page, Pages::Bot);
}

#[test]
fn escape_goes_home_and_resets() {
    let mut m = menu();
    m.menu_cursor = 2;
    m.form.clock_cursor = 1;
    m.handle_game_mode_menu_page_events(MenuKey::Char('b'));
    assert_eq!(m.current_page, Pages::Home);
    assert_eq!(m.menu_cursor, 0);
    assert_eq!(m.form.clock_cursor, 3);
    assert_eq!(m.form.custom_time_minutes, 10);
}

#[test]
fn escape_in_form_closes_it() {
    let mut m = menu();
    m.handle_game_mode_menu_page_events(MenuKey::Enter);
    m.handle_game_mode_menu_page_events(MenuKey::Esc);
    assert!(!m.form.form_active);
    assert_eq!(m.current_page, Pages::GameModeMenu);
}

#[test]
fn other_keys_fall_back() {
    let mut m = menu();
    assert_eq!(m.handle_game_mode_menu_page_events(MenuKey::Char('q')), MenuAction::Fallback);
    assert_eq!(m.handle_game_mode_menu_page_events(MenuKey::Char('?')), MenuAction::ToggleHelp);
    m.menu_cursor = 9;
    m.handle_game_mode_menu_page_events(MenuKey::Other);
    assert_eq!(m.menu_cursor, 0);
}
