use chess_tui::constants::{Pages, Popups};
use chess_tui::menu::MenuKey;
use chess_tui::pieces::PieceColor;
use chess_tui::popups::{message_return_page, PopupAction, PopupScreen};
use chess_tui::state::UiState;

fn screen(page: Pages, popup: Popups) -> PopupScreen {
    let mut ui = UiState::default();
    ui.current_page = page;
    ui.current_popup = Some(popup);
    ui.menu_cursor = 2;
    PopupScreen {
        ui,
        hosting: Some(true),
        selected_color: Some(PieceColor::White),
        clock_cursor: 5,
        custom_time_minutes: 42,
    }
}

#[test]
fn host_ip_enter_keeps_address_on_multiplayer_page() {
    let mut s = screen(Pages::Multiplayer, Popups::EnterHostIP);
    let (a, text) = s.handle_popup_input(Popups::EnterHostIP, MenuKey::Enter, false, "10.0.0.2:2308");
    assert_eq!(a, PopupAction::SubmitHostIp);
    assert_eq!(text.as_deref(), Some("10.0.0.2:2308"));
    assert_eq!(s.ui.current_popup, None);
    assert_eq!(s.ui.current_page, Pages::Multiplayer);

    let mut s = screen(Pages::Solo, Popups::EnterHostIP);
    let (a, text) = s.handle_popup_input(Popups::EnterHostIP, MenuKey::Enter, false, "10.0.0.2");
    assert_eq!(a, PopupAction::SubmitHostIp);
    assert_eq!(text, None);
}

#[test]
fn host_ip_escape_resets_multiplayer_choices() {
    let mut s = screen(Pages::Multiplayer, Popups::EnterHostIP);
    let (a, _) = s.handle_popup_input(Popups::EnterHostIP, MenuKey::Esc, false, "");
    assert_eq!(a, PopupAction::Nothing);
    assert_eq!(s.ui.current_page, Pages::Home);
    assert_eq!(s.ui.menu_cursor, 0);
    assert_eq!(s.hosting, None);
    assert_eq!(s.selected_color, None);

    let mut s = screen(Pages::Bot, Popups::EnterHostIP);
    s.handle_popup_input(Popups::EnterHostIP, MenuKey::Esc, false, "");
    assert_eq!(s.ui.current_page, Pages::Home);
    assert_eq!(s.ui.menu_cursor, 2);
    assert_eq!(s.hosting, Some(true));
}

#[test]
fn prompt_keys_edit_the_prompt() {
    let mut s = screen(Pages::LichessMenu, Popups::EnterGameCode);
    assert_eq!(s.handle_popup_input(Popups::EnterGameCode, MenuKey::Char('x'), false, "").0, PopupAction::PromptInsert('x'));
    assert_eq!(s.handle_popup_input(Popups::EnterGameCode, MenuKey::Backspace, false, "").0, PopupAction::PromptBackspace);
    assert_eq!(s.handle_popup_input(Popups::EnterGameCode, MenuKey::Left, false, "").0, PopupAction::PromptLeft);
    assert_eq!(s.handle_popup_input(Popups::EnterGameCode, MenuKey::Right, false, "").0, PopupAction::PromptRight);
    assert_eq!(s.handle_popup_input(Popups::EnterGameCode, MenuKey::Up, false, "").0, PopupAction::Fallback);
    assert_eq!(s.ui.current_popup, Some(Popups::EnterGameCode));
}

#[test]
fn help_toggles() {
    let mut s = screen(Pages::Solo, Popups::Help);
    s.ui.popup_message = Some(String::from("note"));
    s.handle_popup_input(Popups::Help, MenuKey::Char('?'), false, "");
    assert_eq!(s.ui.current_popup, None);
    assert_eq!(s.ui.popup_message, None);
    assert_eq!(s.handle_popup_input(Popups::Help, MenuKey::Char('q'), false, "").0, PopupAction::Fallback);
}

#[test]
fn waiting_for_opponent_cancel_goes_home() {
    let mut s = screen(Pages::Multiplayer, Popups::WaitingForOpponentToJoin);
    let (a, _) = s.handle_popup_input(Popups::WaitingForOpponentToJoin, MenuKey::Char(' '), false, "");
    assert_eq!(a, PopupAction::CancelHosting);
    assert_eq!(s.ui.current_page, Pages::Home);
    assert_eq!(s.ui.current_popup, None);
    assert_eq!(s.ui.menu_cursor, 0);
    assert_eq!(s.clock_cursor, 3);
    assert_eq!(s.custom_time_minutes, 10);
}

#[test]
fn engine_path_error_goes_home() {
    let mut s = screen(Pages::Bot, Popups::EnginePathError);
    assert_eq!(s.handle_popup_input(Popups::EnginePathError, MenuKey::Enter, false, "").0, PopupAction::Nothing);
    assert_eq!(s.ui.current_page, Pages::Home);
    assert_eq!(s.clock_cursor, 3);
}

#[test]
fn end_screen_keys() {
    let mut s = screen(Pages::Solo, Popups::EndScreen);
    s.handle_popup_input(Popups::EndScreen, MenuKey::Char('H'), false, "");
    assert_eq!(s.ui.current_popup, None);
    assert!(s.ui.end_screen_dismissed);

    let mut s = screen(Pages::Multiplayer, Popups::EndScreen);
    assert_eq!(s.handle_popup_input(Popups::EndScreen, MenuKey::Char('r'), true, "").0, PopupAction::Nothing);
    assert_eq!(s.ui.current_popup, Some(Popups::EndScreen));

    let mut s = screen(Pages::Solo, Popups::EndScreen);
    assert_eq!(s.handle_popup_input(Popups::EndScreen, MenuKey::Char('R'), false, "").0, PopupAction::Restart);
    assert_eq!(s.ui.current_popup, None);
    assert!(!s.ui.end_screen_dismissed);

    let mut s = screen(Pages::Solo, Popups::EndScreen);
    assert_eq!(s.handle_popup_input(Popups::EndScreen, MenuKey::Char('b'), false, "").0, PopupAction::ResetHome);
}

#[test]
fn puzzle_end_screen_keys() {
    let mut s = screen(Pages::Solo, Popups::PuzzleEndScreen);
    assert_eq!(s.handle_popup_input(Popups::PuzzleEndScreen, MenuKey::Char('n'), false, "").0, PopupAction::StartPuzzle);
    assert_eq!(s.ui.current_popup, None);
    assert!(!s.ui.end_screen_dismissed);
}

#[test]
fn error_and_success_return_pages() {
    let mut s = screen(Pages::OngoingGames, Popups::Error);
    s.ui.popup_message = Some(String::from("failed"));
    assert_eq!(s.handle_popup_input(Popups::Error, MenuKey::Esc, false, "").0, PopupAction::Nothing);
    assert_eq!(s.ui.current_page, Pages::LichessMenu);
    assert_eq!(s.ui.popup_message, None);

    let mut s = screen(Pages::OngoingGames, Popups::Success);
    assert_eq!(s.handle_popup_input(Popups::Success, MenuKey::Enter, false, "").0, PopupAction::FetchOngoingGames);
    assert_eq!(s.ui.current_page, Pages::OngoingGames);
    assert_eq!(s.ui.current_popup, None);

    assert_eq!(message_return_page(Pages::Lichess, true, false), Pages::LichessMenu);
    assert_eq!(message_return_page(Pages::Bot, false, false), Pages::Home);
    assert_eq!(message_return_page(Pages::Solo, false, true), Pages::Home);
    assert_eq!(message_return_page(Pages::Solo, false, false), Pages::Solo);
    assert_eq!(message_return_page(Pages::Credit, true, true), Pages::Credit);
}

#[test]
fn game_code_submit() {
    let mut s = screen(Pages::LichessMenu, Popups::EnterGameCode);
    let (a, text) = s.handle_popup_input(Popups::EnterGameCode, MenuKey::Enter, false, " abcd1234");
    assert_eq!(a, PopupAction::JoinGame);
    assert_eq!(text.as_deref(), Some(" abcd1234"));
    assert_eq!(s.ui.current_page, Pages::Lichess);
    assert_eq!(s.ui.current_popup, Some(Popups::EnterGameCode));

    let mut s = screen(Pages::Lichess, Popups::EnterGameCode);
    let (a, text) = s.handle_popup_input(Popups::EnterGameCode, MenuKey::Enter, false, "");
    assert_eq!(a, PopupAction::Nothing);
    assert_eq!(text, None);
    assert_eq!(s.ui.current_page, Pages::LichessMenu);
    assert_eq!(s.ui.current_popup, None);
}

#[test]
fn token_is_trimmed() {
    let mut s = screen(Pages::LichessMenu, Popups::EnterLichessToken);
    let (a, text) = s.handle_popup_input(Popups::EnterLichessToken, MenuKey::Enter, false, "  lip_abc \n");
    assert_eq!(a, PopupAction::SaveToken);
    assert_eq!(text.as_deref(), Some("lip_abc"));
    assert_eq!(s.ui.current_popup, Some(Popups::EnterLichessToken));

    let (a, text) = s.handle_popup_input(Popups::EnterLichessToken, MenuKey::Enter, false, "   ");
    assert_eq!(a, PopupAction::Nothing);
    assert_eq!(text, None);
    assert_eq!(s.ui.current_popup, None);
}

#[test]
fn seeking_escape_cancels() {
    let mut s = screen(Pages::Lichess, Popups::SeekingLichessGame);
    assert_eq!(s.handle_popup_input(Popups::SeekingLichessGame, MenuKey::Esc, false, "").0, PopupAction::CancelSeek);
    assert_eq!(s.ui.current_page, Pages::Home);
    assert_eq!(s.ui.current_popup, None);
}

#[test]
fn resign_confirmation() {
    let mut s = screen(Pages::Lichess, Popups::ResignConfirmation);
    assert_eq!(s.handle_popup_input(Popups::ResignConfirmation, MenuKey::Char('Y'), false, "").0, PopupAction::ConfirmResign);
    assert_eq!(s.ui.current_popup, Some(Popups::ResignConfirmation));
    assert_eq!(s.handle_popup_input(Popups::ResignConfirmation, MenuKey::Char('n'), false, "").0, PopupAction::Nothing);
    assert_eq!(s.ui.current_popup, None);
}

#[test]
fn move_input_submits_trimmed_move() {
    let mut s = screen(Pages::Solo, Popups::MoveInputSelection);
    let (a, text) = s.handle_popup_input(Popups::MoveInputSelection, MenuKey::Enter, false, " Nf3 ");
    assert_eq!(a, PopupAction::SubmitMove);
    assert_eq!(text.as_deref(), Some("Nf3"));
    assert_eq!(s.ui.current_popup, None);

    let mut s = screen(Pages::Solo, Popups::MoveInputSelection);
    let (a, text) = s.handle_popup_input(Popups::MoveInputSelection, MenuKey::Enter, false, "  ");
    assert_eq!(a, PopupAction::Nothing);
    assert_eq!(text, None);
    assert_eq!(s.ui.current_popup, None);
}

#[test]
fn popups_without_keys_fall_back() {
    let mut s = screen(Pages::Solo, Popups::Loading);
    assert_eq!(s.handle_popup_input(Popups::Loading, MenuKey::Esc, false, "").0, PopupAction::Fallback);
    assert_eq!(s.ui.current_popup, Some(Popups::Loading));
}
