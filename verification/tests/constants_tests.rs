use chess_tui::constants::{
    append_lichess_api_suffix, is_valid_lichess_api_url, lichess_api_url,
    lichess_api_url_has_suffix, lichess_api_url_is_env_pinned, lichess_token_create_url,
    resolve_lichess_api_url, set_lichess_api_url, startup_lichess_api_url,
    DEFAULT_LICHESS_API_URL,
};

#[test]
fn unset_env_falls_back_to_default() {
    assert_eq!(resolve_lichess_api_url(None), DEFAULT_LICHESS_API_URL);
}

#[test]
fn blank_env_falls_back_to_default() {
    assert_eq!(
        resolve_lichess_api_url(Some("   ".to_string())),
        DEFAULT_LICHESS_API_URL
    );
}

#[test]
fn custom_url_is_used() {
    assert_eq!(
        resolve_lichess_api_url(Some("http://localhost:9663/api".to_string())),
        "http://localhost:9663/api"
    );
}

#[test]
fn trailing_slashes_and_whitespace_are_trimmed() {
    assert_eq!(
        resolve_lichess_api_url(Some(" https://lichess.dev/api// ".to_string())),
        "https://lichess.dev/api"
    );
}

#[test]
fn the_cli_flag_beats_the_config_and_is_normalized() {
    assert_eq!(
        startup_lichess_api_url(Some(" https://cli.example/api/ "), Some("https://cfg/api"), None),
        Some("https://cli.example/api".to_string())
    );
}

#[test]
fn the_config_applies_when_no_flag_is_given() {
    assert_eq!(
        startup_lichess_api_url(None, Some("https://cfg.example/api"), None),
        Some("https://cfg.example/api".to_string())
    );
}

#[test]
fn nothing_is_applied_without_a_flag_or_config() {
    assert_eq!(startup_lichess_api_url(None, None, None), None);
}

#[test]
fn setting_the_url_at_runtime_replaces_it_and_normalizes() {
    let mut store = resolve_lichess_api_url(None);
    assert_eq!(
        set_lichess_api_url(&mut store, " http://localhost:9663/api/ "),
        "http://localhost:9663/api"
    );
    assert_eq!(lichess_api_url(&store), "http://localhost:9663/api");

    // A blank value restores the default rather than emptying the URL.
    assert_eq!(set_lichess_api_url(&mut store, "   "), DEFAULT_LICHESS_API_URL);
    assert_eq!(lichess_api_url(&store), DEFAULT_LICHESS_API_URL);
}

#[test]
fn only_http_urls_are_valid_and_blank_means_default() {
    assert!(is_valid_lichess_api_url("https://lichess.org/api"));
    assert!(is_valid_lichess_api_url("http://localhost:9663/api"));
    assert!(is_valid_lichess_api_url("  "));
    assert!(!is_valid_lichess_api_url("lichess.org/api"));
    assert!(!is_valid_lichess_api_url("ftp://lichess.org/api"));
}

#[test]
fn the_api_suffix_is_detected_through_whitespace_and_slashes() {
    assert!(lichess_api_url_has_suffix(" https://lichess.dev/api/ "));
    assert!(lichess_api_url_has_suffix(""));
    assert!(!lichess_api_url_has_suffix("https://lichess.dev"));
    assert!(!lichess_api_url_has_suffix("https://lichess.dev/apis"));
}

#[test]
fn appending_the_suffix_is_idempotent() {
    assert_eq!(
        append_lichess_api_suffix("https://lichess.dev/"),
        "https://lichess.dev/api"
    );
    assert_eq!(
        append_lichess_api_suffix("https://lichess.dev/api"),
        "https://lichess.dev/api"
    );
    assert_eq!(append_lichess_api_suffix("  "), DEFAULT_LICHESS_API_URL);
}

#[test]
fn the_token_url_points_at_the_instance_with_scopes_preselected() {
    assert_eq!(
        lichess_token_create_url("https://lichess.verde.zoe/api"),
        "https://lichess.verde.zoe/account/oauth/token/create?scopes[]=preference:read&scopes[]=board:play&scopes[]=challenge:write&scopes[]=puzzle:read&description=chess-tui"
    );
    // A URL saved without the /api suffix still yields the same web root.
    assert!(lichess_token_create_url("https://lichess.verde.zoe/")
        .starts_with("https://lichess.verde.zoe/account/oauth/token/create?"));
}

#[test]
fn a_non_blank_environment_value_pins_the_url() {
    assert_eq!(
        startup_lichess_api_url(None, Some("https://cfg.example/api"), Some("https://env/api")),
        None
    );
    assert_eq!(
        startup_lichess_api_url(None, Some("https://cfg.example/api"), Some("  ")),
        Some("https://cfg.example/api".to_string())
    );
    assert_eq!(
        startup_lichess_api_url(Some("https://cli/api"), None, Some("https://env/api")),
        Some("https://cli/api".to_string())
    );
    assert!(lichess_api_url_is_env_pinned(Some(" x ")));
    assert!(!lichess_api_url_is_env_pinned(Some("\t\n")));
    assert!(!lichess_api_url_is_env_pinned(None));
}

#[test]
fn appending_twice_is_the_same_as_once() {
    for raw in ["x /", " https://a/b/ ", "", "https://a/api", "\u{a0}h\u{3000}/"] {
        let once = append_lichess_api_suffix(raw);
        assert_eq!(append_lichess_api_suffix(&once), once);
    }
}

#[test]
fn unicode_whitespace_is_trimmed_like_std() {
    let raw = "\u{2003}\u{a0}https://x.dev/api//\u{3000}";
    assert_eq!(resolve_lichess_api_url(Some(raw.to_string())), raw.trim().trim_end_matches('/'));
}

#[test]
fn the_appended_url_always_has_the_suffix() {
    for raw in ["", "  ", "https://lichess.org", "https://lichess.org/api/", " http://x.org/api ", "http://x.org//"] {
        let a = append_lichess_api_suffix(raw);
        assert!(lichess_api_url_has_suffix(&a));
        assert!(a.ends_with("/api"));
    }
    assert_eq!(append_lichess_api_suffix("  https://x.org/api// "), "https://x.org/api");
}

#[test]
fn the_token_url_ignores_an_api_suffix_or_slash() {
    let u = "https://example.org";
    let plain = lichess_token_create_url(u);
    assert_eq!(lichess_token_create_url("https://example.org/api"), plain);
    assert_eq!(lichess_token_create_url("https://example.org/"), plain);
    assert!(plain.starts_with("https://example.org/account/oauth/token/create?"));
}

#[test]
fn slashes_and_spaces_are_trimmed_until_neither_is_left() {
    let mut store = resolve_lichess_api_url(None);
    assert_eq!(set_lichess_api_url(&mut store, "a /"), "a");
    assert_eq!(set_lichess_api_url(&mut store, " http://x.org/ / \t/"), "http://x.org");
    assert_eq!(lichess_api_url(&store), "http://x.org");
    assert_eq!(append_lichess_api_suffix("http://x.org/api / "), "http://x.org/api");
    assert!(lichess_api_url_has_suffix("http://x.org/api /"));
    assert_eq!(set_lichess_api_url(&mut store, " / "), DEFAULT_LICHESS_API_URL);
}
