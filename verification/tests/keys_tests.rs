use chess_tui::board::Coord;
use chess_tui::constants::{Pages, Popups};
use chess_tui::game_logic::game::{Game, GameState};
use chess_tui::game_logic::game_board::GameBoard;
use chess_tui::keys::{handle_key, menu_select, show_disconnected, token_known, KeyOutcome, PageAction, PageContext};
use chess_tui::popups::{PopupAction, PopupScreen};
use chess_tui::menu::MenuKey;
use chess_tui::pieces::PieceColor;
use chess_tui::state::{AvailableGameMode, GameModeState, UiState};

fn ctx() -> PageContext {
    PageContext {
        game_state: GameState::Playing,
        player_turn: PieceColor::White,
        my_color: None,
        in_puzzle: false,
        has_token: true,
        ongoing_games: 3,
        control: false,
    }
}

fn on(page: Pages) -> UiState {
    let mut ui = UiState::default();
    ui.current_page = page;
    ui
}

#[test]
fn home_menu_wraps_over_six_entries() {
    let mut ui = on(Pages::Home);
    assert_eq!(ui.handle_page_input(MenuKey::Up, ctx()), PageAction::Nothing);
    assert_eq!(ui.menu_cursor, 5);
    ui.handle_page_input(MenuKey::Char('j'), ctx());
    assert_eq!(ui.menu_cursor, 0);
    assert_eq!(ui.handle_page_input(MenuKey::Enter, ctx()), PageAction::MenuSelect);
}

#[test]
fn home_skin_entry_changes_skin() {
    let mut ui = on(Pages::Home);
    assert_eq!(ui.handle_page_input(MenuKey::Left, ctx()), PageAction::Nothing);
    ui.menu_cursor = 2;
    assert_eq!(ui.handle_page_input(MenuKey::Left, ctx()), PageAction::CycleSkinBack);
    assert_eq!(ui.handle_page_input(MenuKey::Char('l'), ctx()), PageAction::CycleSkin { save: true });
    assert_eq!(ui.menu_cursor, 2);
}

#[test]
fn shared_keys() {
    let mut ui = on(Pages::Home);
    assert_eq!(ui.handle_page_input(MenuKey::Char('q'), ctx()), PageAction::Quit);
    assert_eq!(ui.handle_page_input(MenuKey::Char('c'), ctx()), PageAction::Nothing);
    let mut with_control = ctx();
    with_control.control = true;
    assert_eq!(ui.handle_page_input(MenuKey::Char('C'), with_control), PageAction::Quit);
    assert_eq!(ui.handle_page_input(MenuKey::Char('s'), ctx()), PageAction::CycleSkin { save: false });
}

#[test]
fn help_toggles_on_the_home_page() {
    let mut ui = on(Pages::Home);
    ui.handle_page_input(MenuKey::Char('?'), ctx());
    assert_eq!(ui.current_popup, Some(Popups::Help));
}

#[test]
fn solo_game_keys() {
    let mut ui = on(Pages::Solo);
    assert_eq!(ui.handle_page_input(MenuKey::Char('r'), ctx()), PageAction::Restart);
    assert_eq!(ui.handle_page_input(MenuKey::Char('b'), ctx()), PageAction::ResetHome);
    assert_eq!(ui.handle_page_input(MenuKey::Char('N'), ctx()), PageAction::HistoryNext);
    assert_eq!(ui.handle_page_input(MenuKey::Char('p'), ctx()), PageAction::HistoryPrevious);
    assert_eq!(ui.handle_page_input(MenuKey::Char('t'), ctx()), PageAction::Nothing);
    let mut puzzle = ctx();
    puzzle.in_puzzle = true;
    assert_eq!(ui.handle_page_input(MenuKey::Char('t'), puzzle), PageAction::PuzzleHint);
    assert_eq!(ui.handle_page_input(MenuKey::Char('n'), puzzle), PageAction::Nothing);
    let mut over = ctx();
    over.game_state = GameState::Draw;
    assert_eq!(ui.handle_page_input(MenuKey::Char('p'), over), PageAction::Nothing);
}

#[test]
fn board_cursor_keys() {
    let mut ui = on(Pages::Bot);
    assert_eq!(ui.handle_page_input(MenuKey::Up, ctx()), PageAction::CursorUp);
    assert_eq!(ui.handle_page_input(MenuKey::Char('j'), ctx()), PageAction::CursorDown);
    assert_eq!(ui.handle_page_input(MenuKey::Char('h'), ctx()), PageAction::CursorLeft);
    assert_eq!(ui.handle_page_input(MenuKey::Right, ctx()), PageAction::CursorRight);
    assert_eq!(ui.handle_page_input(MenuKey::Enter, ctx()), PageAction::CellClick);
    assert_eq!(ui.handle_page_input(MenuKey::Esc, ctx()), PageAction::Unselect);
    assert_eq!(ui.handle_page_input(MenuKey::Char('S'), ctx()), PageAction::CycleSkin { save: true });
    assert_eq!(ui.handle_page_input(MenuKey::Char('r'), ctx()), PageAction::Restart);
}

#[test]
fn promotion_keys_move_the_promotion_cursor() {
    let mut ui = on(Pages::Solo);
    let mut promo = ctx();
    promo.game_state = GameState::Promotion;
    assert_eq!(ui.handle_page_input(MenuKey::Left, promo), PageAction::PromotionLeft);
    assert_eq!(ui.handle_page_input(MenuKey::Char('l'), promo), PageAction::PromotionRight);
    assert_eq!(ui.handle_page_input(MenuKey::Up, promo), PageAction::Nothing);
}

#[test]
fn lichess_cursor_moves_only_on_own_turn() {
    let mut ui = on(Pages::Lichess);
    let mut black = ctx();
    black.my_color = Some(PieceColor::Black);
    assert_eq!(ui.handle_page_input(MenuKey::Right, black), PageAction::Nothing);
    assert_eq!(ui.handle_page_input(MenuKey::Left, black), PageAction::Nothing);
    assert_eq!(ui.handle_page_input(MenuKey::Up, black), PageAction::CursorUp);
    assert_eq!(ui.handle_page_input(MenuKey::Right, ctx()), PageAction::Nothing);
    let mut white = ctx();
    white.my_color = Some(PieceColor::White);
    assert_eq!(ui.handle_page_input(MenuKey::Right, white), PageAction::CursorRight);
    assert_eq!(ui.handle_page_input(MenuKey::Char('b'), white), PageAction::ResetHome);
}

#[test]
fn left_toggles_the_end_screen_when_the_game_is_over() {
    let mut ui = on(Pages::Solo);
    let mut over = ctx();
    over.game_state = GameState::Checkmate;
    ui.handle_page_input(MenuKey::Left, over);
    assert_eq!(ui.current_popup, Some(Popups::EndScreen));
    assert!(!ui.end_screen_dismissed);
    ui.handle_page_input(MenuKey::Char('h'), over);
    assert_eq!(ui.current_popup, None);
    assert!(ui.end_screen_dismissed);
    ui.handle_page_input(MenuKey::Char('h'), over);
    assert_eq!(ui.current_popup, Some(Popups::EndScreen));
    assert!(!ui.end_screen_dismissed);

    let mut ui = on(Pages::Solo);
    over.in_puzzle = true;
    ui.handle_page_input(MenuKey::Left, over);
    assert_eq!(ui.current_popup, Some(Popups::PuzzleEndScreen));
}

#[test]
fn move_key_opens_the_move_prompt() {
    let mut ui = on(Pages::Multiplayer);
    assert_eq!(ui.handle_page_input(MenuKey::Char('m'), ctx()), PageAction::AskMove);
    assert_eq!(ui.current_popup, Some(Popups::MoveInputSelection));
}

#[test]
fn lichess_menu_asks_for_a_token_first() {
    let mut ui = on(Pages::LichessMenu);
    let mut no_token = ctx();
    no_token.has_token = false;
    assert_eq!(ui.handle_page_input(MenuKey::Enter, no_token), PageAction::AskToken);
    assert_eq!(ui.current_popup, Some(Popups::EnterLichessToken));

    let mut ui = on(Pages::LichessMenu);
    ui.menu_cursor = 4;
    assert_eq!(ui.handle_page_input(MenuKey::Enter, no_token), PageAction::DisconnectLichess);
}

#[test]
fn lichess_menu_entries() {
    let mut ui = on(Pages::LichessMenu);
    ui.menu_cursor = 3;
    assert_eq!(ui.handle_page_input(MenuKey::Char(' '), ctx()), PageAction::AskGameCode);
    assert_eq!(ui.current_popup, Some(Popups::EnterGameCode));

    let mut ui = on(Pages::LichessMenu);
    ui.menu_cursor = 1;
    assert_eq!(ui.handle_page_input(MenuKey::Enter, ctx()), PageAction::StartPuzzle);
    ui.menu_cursor = 2;
    assert_eq!(ui.handle_page_input(MenuKey::Enter, ctx()), PageAction::FetchOngoingGames);
    ui.menu_cursor = 0;
    assert_eq!(ui.handle_page_input(MenuKey::Enter, ctx()), PageAction::SeekLichess);
    assert_eq!(ui.current_page, Pages::Lichess);

    let mut ui = on(Pages::LichessMenu);
    ui.handle_page_input(MenuKey::Up, ctx());
    assert_eq!(ui.menu_cursor, 4);
    ui.handle_page_input(MenuKey::Char('b'), ctx());
    assert_eq!(ui.current_page, Pages::Home);
    assert_eq!(ui.menu_cursor, 0);
}

#[test]
fn ongoing_games_cursor_stops_at_the_ends() {
    let mut ui = on(Pages::OngoingGames);
    ui.handle_page_input(MenuKey::Up, ctx());
    assert_eq!(ui.menu_cursor, 0);
    ui.handle_page_input(MenuKey::Down, ctx());
    ui.handle_page_input(MenuKey::Down, ctx());
    ui.handle_page_input(MenuKey::Down, ctx());
    assert_eq!(ui.menu_cursor, 2);
    let mut none = ctx();
    none.ongoing_games = 0;
    let mut ui2 = on(Pages::OngoingGames);
    ui2.handle_page_input(MenuKey::Down, none);
    assert_eq!(ui2.menu_cursor, 0);
    assert_eq!(ui.handle_page_input(MenuKey::Enter, ctx()), PageAction::SelectOngoingGame);
    assert_eq!(ui2.handle_page_input(MenuKey::Char('r'), none), PageAction::Nothing);
    assert_eq!(ui2.current_popup, None);
    assert_eq!(ui.handle_page_input(MenuKey::Char('R'), ctx()), PageAction::Nothing);
    assert_eq!(ui.current_popup, Some(Popups::ResignConfirmation));
    ui.current_popup = None;
    ui.handle_page_input(MenuKey::Esc, ctx());
    assert_eq!(ui.current_page, Pages::LichessMenu);
    assert_eq!(ui.menu_cursor, 0);
}

#[test]
fn credits_close_to_home() {
    let mut ui = on(Pages::Credit);
    ui.menu_cursor = 3;
    assert_eq!(ui.handle_page_input(MenuKey::Esc, ctx()), PageAction::Nothing);
    assert_eq!(ui.current_page, Pages::Home);
    assert_eq!(ui.menu_cursor, 0);
}

#[test]
fn game_mode_menu_keys_go_to_its_handler() {
    let mut ui = on(Pages::GameModeMenu);
    assert_eq!(ui.handle_page_input(MenuKey::Char('q'), ctx()), PageAction::GameModeMenu);
}

#[test]
fn token_presence() {
    assert!(!token_known(&None));
    assert!(!token_known(&Some(String::new())));
    assert!(token_known(&Some(String::from("lip_x"))));
}

#[test]
fn keyboard_after_mouse_moves_cursor_to_selection() {
    let mut g = Game::new(GameBoard::default(), PieceColor::White);
    g.ui.mouse_used = true;
    g.ui.selected_square = Some(12);
    g.keyboard_takes_over();
    assert!(!g.ui.mouse_used);
    assert_eq!(g.ui.selected_square, None);
    assert_eq!(g.ui.cursor_coordinates, Coord { row: 6, col: 4 });

    let mut g = Game::new(GameBoard::default(), PieceColor::White);
    g.ui.mouse_used = true;
    g.ui.cursor_coordinates = Coord { row: 0, col: 0 };
    g.keyboard_takes_over();
    assert_eq!(g.ui.cursor_coordinates, Coord { row: 4, col: 4 });

    let mut g = Game::new(GameBoard::default(), PieceColor::White);
    g.ui.selected_square = Some(12);
    g.keyboard_takes_over();
    assert_eq!(g.ui.selected_square, Some(12));
}

#[test]
fn help_twice_gives_the_screen_back() {
    let mut ui = on(Pages::LichessMenu);
    ui.menu_cursor = 2;
    ui.handle_page_input(MenuKey::Char('?'), ctx());
    ui.handle_page_input(MenuKey::Char('?'), ctx());
    assert_eq!(ui.current_popup, None);
    assert_eq!(ui.popup_message, None);
    assert_eq!(ui.menu_cursor, 2);
    assert_eq!(ui.current_page, Pages::LichessMenu);
}

#[test]
fn home_menu_entries_open() {
    let mut ui = on(Pages::Home);
    let mut form = GameModeState::default();
    form.form_cursor = 3;
    form.form_active = true;
    assert_eq!(menu_select(&mut ui, &mut form, false), PageAction::Nothing);
    assert_eq!(ui.current_page, Pages::GameModeMenu);
    assert_eq!(form.selection, Some(AvailableGameMode::Local));
    assert_eq!(form.form_cursor, 0);
    assert!(!form.form_active);

    let mut ui = on(Pages::Home);
    ui.menu_cursor = 1;
    assert_eq!(menu_select(&mut ui, &mut form, false), PageAction::AskToken);
    assert_eq!(ui.current_popup, Some(Popups::EnterLichessToken));
    assert_eq!(ui.current_page, Pages::Home);
    let mut ui = on(Pages::Home);
    ui.menu_cursor = 1;
    assert_eq!(menu_select(&mut ui, &mut form, true), PageAction::FetchProfile);
    assert_eq!(ui.current_page, Pages::LichessMenu);
    assert_eq!(ui.menu_cursor, 0);

    let mut ui = on(Pages::Home);
    ui.menu_cursor = 2;
    assert_eq!(menu_select(&mut ui, &mut form, true), PageAction::CycleSkin { save: true });
    ui.menu_cursor = 3;
    assert_eq!(menu_select(&mut ui, &mut form, true), PageAction::ToggleSound);
    ui.menu_cursor = 4;
    menu_select(&mut ui, &mut form, true);
    assert_eq!(ui.current_popup, Some(Popups::Help));
    ui.menu_cursor = 5;
    menu_select(&mut ui, &mut form, true);
    assert_eq!(ui.current_page, Pages::Credit);
}

#[test]
fn q_quits_and_question_mark_helps_on_every_page() {
    let pages = [
        Pages::Home,
        Pages::Solo,
        Pages::Multiplayer,
        Pages::Lichess,
        Pages::LichessMenu,
        Pages::OngoingGames,
        Pages::Bot,
        Pages::Credit,
    ];
    for page in pages {
        let mut ui = on(page);
        assert_eq!(ui.handle_page_input(MenuKey::Char('q'), ctx()), PageAction::Quit);
    }
    for page in [Pages::Home, Pages::Solo, Pages::Bot, Pages::LichessMenu, Pages::OngoingGames] {
        let mut ui = on(page);
        assert_eq!(ui.handle_page_input(MenuKey::Char('?'), ctx()), PageAction::Nothing);
        assert_eq!(ui.current_popup, Some(Popups::Help));
    }
}

#[test]
fn b_goes_back() {
    for page in [Pages::Solo, Pages::Multiplayer, Pages::Lichess, Pages::Bot] {
        let mut ui = on(page);
        assert_eq!(ui.handle_page_input(MenuKey::Char('b'), ctx()), PageAction::ResetHome);
        assert_eq!(ui.current_page, page);
    }
    let mut ui = on(Pages::OngoingGames);
    ui.handle_page_input(MenuKey::Char('b'), ctx());
    assert_eq!(ui.current_page, Pages::LichessMenu);
}

#[test]
fn forgetting_the_account_goes_home_with_a_message() {
    let mut ui = on(Pages::LichessMenu);
    ui.menu_cursor = 4;
    show_disconnected(&mut ui);
    assert_eq!(ui.current_page, Pages::Home);
    assert_eq!(ui.menu_cursor, 0);
    assert_eq!(ui.current_popup, Some(Popups::Success));
    assert!(ui.popup_message.unwrap().starts_with("Disconnected from Lichess successfully!"));
}

#[test]
fn keys_go_to_the_popup_first() {
    let mut screen = PopupScreen {
        ui: on(Pages::Solo),
        hosting: None,
        selected_color: None,
        clock_cursor: 3,
        custom_time_minutes: 10,
    };
    match handle_key(&mut screen, MenuKey::Char('r'), ctx(), false, "") {
        KeyOutcome::Page(a) => assert_eq!(a, PageAction::Restart),
        other => panic!("unexpected {:?}", other),
    }
    screen.ui.current_popup = Some(Popups::MoveInputSelection);
    match handle_key(&mut screen, MenuKey::Enter, ctx(), false, " e4 ") {
        KeyOutcome::Popup(a, t) => {
            assert_eq!(a, PopupAction::SubmitMove);
            assert_eq!(t.as_deref(), Some("e4"));
        }
        other => panic!("unexpected {:?}", other),
    }
    assert_eq!(screen.ui.current_popup, None);
}
