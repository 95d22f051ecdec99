use chess_tui::config::{difficulty_from_arg, difficulty_index, Args, Config, ConfigWriteWarning, IoErrorInfo};

fn args() -> Args {
    Args {
        engine_path: String::new(),
        depth: None,
        difficulty: None,
        lichess_token: None,
        no_sound: false,
        skin: None,
        update_skins: false,
        pgn: None,
    }
}

fn empty_config() -> Config {
    Config {
        engine_path: None,
        display_mode: None,
        log_level: None,
        bot_depth: None,
        bot_difficulty: None,
        selected_skin_name: None,
        lichess_token: None,
        sound_enabled: None,
    }
}

#[test]
fn missing_settings_get_defaults() {
    let c = Config::merged_with_args(empty_config(), &args(), None);
    assert_eq!(c.engine_path, Some(String::new()));
    assert_eq!(c.display_mode, Some("DEFAULT".to_string()));
    assert_eq!(c.log_level, Some("OFF".to_string()));
    assert_eq!(c.bot_depth, Some(10));
    assert_eq!(c.selected_skin_name, Some("Default".to_string()));
    assert_eq!(c.sound_enabled, Some(true));
    assert_eq!(c.lichess_token, None);
}

#[test]
fn command_line_takes_precedence() {
    let mut a = args();
    a.engine_path = "/bin/stockfish".to_string();
    a.depth = Some(5);
    a.difficulty = Some("HaRd".to_string());
    a.lichess_token = Some("cli".to_string());
    a.no_sound = true;
    let mut c = empty_config();
    c.engine_path = Some("/old".to_string());
    c.lichess_token = Some("saved".to_string());
    c.bot_depth = Some(12);
    let c = Config::merged_with_args(c, &a, Some("env".to_string()));
    assert_eq!(c.engine_path, Some("/bin/stockfish".to_string()));
    assert_eq!(c.bot_depth, Some(5));
    assert_eq!(c.bot_difficulty, Some(2));
    assert_eq!(c.lichess_token, Some("cli".to_string()));
    assert_eq!(c.sound_enabled, Some(false));
}

#[test]
fn environment_token_fills_a_missing_one() {
    let c = Config::merged_with_args(empty_config(), &args(), Some("env".to_string()));
    assert_eq!(c.lichess_token, Some("env".to_string()));
    let c = Config::merged_with_args(empty_config(), &args(), Some(String::new()));
    assert_eq!(c.lichess_token, None);
    let mut saved = empty_config();
    saved.lichess_token = Some("saved".to_string());
    let c = Config::merged_with_args(saved, &args(), Some("env".to_string()));
    assert_eq!(c.lichess_token, Some("saved".to_string()));
}

#[test]
fn unknown_difficulty_keeps_setting() {
    let mut a = args();
    a.difficulty = Some("impossible".to_string());
    let mut c = empty_config();
    c.bot_difficulty = Some(1);
    let c = Config::merged_with_args(c, &a, None);
    assert_eq!(c.bot_difficulty, Some(1));
}

#[test]
fn difficulty_names_in_any_case() {
    assert_eq!(difficulty_index("easy"), Some(0));
    assert_eq!(difficulty_index("Easy"), None);
    assert_eq!(difficulty_from_arg("MAGNUS"), Some(3));
    assert_eq!(difficulty_from_arg("Medium"), Some(1));
}

/// What the application reads off an IO error.
fn info(e: &std::io::Error) -> IoErrorInfo {
    IoErrorInfo { os_error: e.raw_os_error(), permission_denied: e.kind() == std::io::ErrorKind::PermissionDenied }
}

#[test]
fn read_only_errors_are_told_apart() {
    let ro = info(&std::io::Error::from_raw_os_error(30));
    assert!(Config::is_readonly_error(&ro));
    assert_eq!(Config::handle_config_write_error(&ro), ConfigWriteWarning::ReadOnly);
    let denied = info(&std::io::Error::new(std::io::ErrorKind::PermissionDenied, "no"));
    assert!(Config::is_readonly_error(&denied));
    assert_eq!(Config::handle_config_write_error(&denied), ConfigWriteWarning::ReadOnly);
    let other = info(&std::io::Error::new(std::io::ErrorKind::NotFound, "gone"));
    assert!(!Config::is_readonly_error(&other));
    assert_eq!(Config::handle_config_write_error(&other), ConfigWriteWarning::Failed);
    let enoent = info(&std::io::Error::from_raw_os_error(2));
    assert_eq!(Config::handle_config_write_error(&enoent), ConfigWriteWarning::Failed);
    assert!(Config::is_readonly_code(Some(30), false));
    assert!(!Config::is_readonly_code(Some(2), false));
}

#[test]
fn test_lichess_token_from_env_var() {
    let c = Config::merged_with_args(empty_config(), &args(), Some("test_token_from_env".to_string()));
    assert_eq!(c.lichess_token, Some("test_token_from_env".to_string()));
}

#[test]
fn test_lichess_token_cli_takes_precedence_over_env() {
    let mut a = args();
    a.lichess_token = Some("token_from_cli".to_string());
    let c = Config::merged_with_args(empty_config(), &a, Some("token_from_env".to_string()));
    assert_eq!(c.lichess_token, Some("token_from_cli".to_string()));
}

#[test]
fn test_lichess_token_config_preserved_when_no_env_or_cli() {
    let existing_config = Config {
        engine_path: None,
        display_mode: Some("DEFAULT".to_string()),
        log_level: Some("OFF".to_string()),
        bot_depth: Some(10),
        bot_difficulty: None,
        selected_skin_name: Some("Default".to_string()),
        lichess_token: Some("existing_token".to_string()),
        sound_enabled: Some(true),
    };
    let c = Config::merged_with_args(existing_config, &args(), None);
    assert_eq!(c.lichess_token, Some("existing_token".to_string()));
}

#[test]
fn test_empty_env_var_ignored() {
    let c = Config::merged_with_args(empty_config(), &args(), Some(String::new()));
    assert_eq!(c.lichess_token, None);
}
