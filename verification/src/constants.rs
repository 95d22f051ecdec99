//! Shared constants, navigation enums and the Lichess API URL rules.
//!
//! The Lichess API base URL is normalized the same way wherever it comes
//! from: surrounding whitespace and trailing slashes are removed, and a
//! blank value stands for the default URL. The URL in effect for the
//! process is kept in a store that the caller owns.

use vstd::prelude::*;
use crate::text::{
    chars_of, concat_chars, ends_with, has_prefix, has_suffix, is_ws, slice_chars, starts_with,
    string_of, trim_chars, trim_end_char, trimmed, trimmed_end_char, char_pred, ws_pred, char_is_ws,
    lemma_strip_start_at, lemma_strip_end_at,
    strip_start_by, strip_end_by, lemma_strip_end_prefix, lemma_strip_start_head,
    lemma_strip_end_keeps, lemma_strip_start_keeps, lemma_strip_end_head,
};

verus! {

/// Sentinel value meaning "no board position set".
pub const UNDEFINED_POSITION: u8 = 255u8;
/// TCP port for peer-to-peer multiplayer connections.
pub const NETWORK_PORT: u16 = 2308u16;
/// Byte length of the move message exchanged over TCP.
pub const NETWORK_BUFFER_SIZE: usize = 5usize;
/// Short poll interval used when waiting for network events.
pub const SLEEP_DURATION_SHORT_MS: u64 = 50u64;
/// Longer poll interval used for less time-sensitive waits.
pub const SLEEP_DURATION_LONG_MS: u64 = 100u64;
/// Wait after sending a resign to Lichess before continuing.
pub const SLEEP_DURATION_RESIGN_MS: u64 = 500u64;
/// Pause after showing a puzzle solution before proceeding.
pub const SLEEP_DURATION_PUZZLE_MS: u64 = 1500u64;
/// Number of days of rating history shown in the chart.
pub const RATING_HISTORY_DAYS: i64 = 90i64;
/// Index of the "Custom" entry among the time control options.
pub const TIME_CONTROL_CUSTOM_INDEX: u8 = 6u8;
/// Number of bot difficulty presets.
pub const BOT_DIFFICULTY_COUNT: usize = 4usize;
/// Default selected time control index (Rapid).
pub const DEFAULT_TIME_CONTROL_SELECTED: u8 = 3u8;
/// Default duration in minutes when "Custom" time control is selected.
pub const DEFAULT_CUSTOM_TIME_VALUE: u16 = 10u16;

/// Piece rendering style: built-in Unicode, plain ASCII, or a custom skin.
#[derive(Debug, Clone, Copy, PartialEq, Eq, Structural)]
pub enum DisplayMode {
    /// Built-in Unicode piece set.
    DEFAULT,
    /// Plain ASCII characters.
    ASCII,
    /// User-defined skin.
    CUSTOM,
}

impl DisplayMode {
    /// The name of the mode, as shown and as stored in the config file.
    pub fn to_string(&self) -> (r: String)
        ensures
            r@ == match self {
                DisplayMode::ASCII => "ASCII"@,
                DisplayMode::DEFAULT => "DEFAULT"@,
                DisplayMode::CUSTOM => "CUSTOM"@,
            },
    {
        match self {
            DisplayMode::ASCII => String::from_str("ASCII"),
            DisplayMode::DEFAULT => String::from_str("DEFAULT"),
            DisplayMode::CUSTOM => String::from_str("CUSTOM"),
        }
    }
}

/// The full-screen page currently being rendered.
#[derive(Debug, PartialEq, Eq, Clone, Copy, Structural)]
pub enum Pages {
    /// Main menu.
    Home,
    /// Local two-player game.
    Solo,
    /// TCP peer-to-peer game.
    Multiplayer,
    /// Active Lichess game board.
    Lichess,
    /// Lichess landing menu.
    LichessMenu,
    /// Ongoing Lichess games list.
    OngoingGames,
    /// Game against the chess engine.
    Bot,
    /// Credits / about page.
    Credit,
    /// Game-mode selection form.
    GameModeMenu,
    /// PGN replay viewer.
    PgnViewer,
    /// Settings menu.
    SettingsMenu,
}

impl Pages {
    /// The number of pages counted by the menu layout.
    pub fn variant_count() -> (r: usize)
        ensures
            r == 9,
    {
        9
    }
}

/// Overlay popups rendered on top of the active page.
#[derive(Debug, PartialEq, Eq, Clone, Copy, Structural)]
pub enum Popups {
    /// Text input for the remote peer's IP address.
    EnterHostIP,
    /// Shown while the host waits for a peer to connect.
    WaitingForOpponentToJoin,
    /// Engine binary could not be found or launched.
    EnginePathError,
    /// Key-bindings help overlay.
    Help,
    /// Game-over result screen.
    EndScreen,
    /// Puzzle-completion result screen.
    PuzzleEndScreen,
    /// Generic error message.
    Error,
    /// Generic success message.
    Success,
    /// Waiting for a Lichess game pairing.
    SeekingLichessGame,
    /// Text input for a Lichess game ID or URL.
    EnterGameCode,
    /// Masked text input for the Lichess API token.
    EnterLichessToken,
    /// Text input for the Lichess API base URL.
    EnterLichessApiUrl,
    /// Y/N confirmation before resigning.
    ResignConfirmation,
    /// SAN move text entry.
    MoveInputSelection,
    /// File path entry for loading a PGN file.
    LoadPgnPath,
    /// Spinner to make the user wait.
    Loading,
    /// Text input for the chess engine path.
    EnterEnginePath,
}

/// Default base URL for all Lichess REST API requests.
pub const DEFAULT_LICHESS_API_URL: &'static str = "https://lichess.org/api";
/// Path suffix a Lichess API base URL is expected to end with.
pub const LICHESS_API_URL_SUFFIX: &'static str = "/api";
/// Description pre-filled on the Lichess token creation form.
pub const LICHESS_TOKEN_DESCRIPTION: &'static str = "chess-tui";
/// Environment variable used to override the Lichess API base URL.
pub const LICHESS_API_URL_ENV: &'static str = "CHESS_TUI_LICHESS_API_URL";
/// Base URL for the documentation.
pub const DOCS_URL: &'static str = "https://thomas-mauran.github.io/chess-tui/docs";

/// The OAuth scopes a Lichess personal access token needs, in order.
pub open spec fn token_scopes() -> Seq<Seq<char>> {
    seq!["preference:read"@, "board:play"@, "challenge:write"@, "puzzle:read"@]
}

/// The OAuth scopes a Lichess personal access token needs, in order.
pub fn lichess_token_scopes() -> (r: Vec<&'static str>)
    ensures
        r@.len() == 4,
        forall|i: int| 0 <= i < 4 ==> #[trigger] r@[i]@ == token_scopes()[i],
{
    let r = vec!["preference:read", "board:play", "challenge:write", "puzzle:read"];
    r
}

/// What is trimmed from the end of a URL: whitespace and slashes.
pub open spec fn url_tail_pred() -> spec_fn(char) -> bool {
    |c: char| is_ws(c) || c == '/'
}

/// A raw URL with the whitespace before it removed, and whitespace and
/// slashes after it removed until neither is left: no surrounding
/// whitespace and no trailing slash.
pub open spec fn normalized_url(raw: Seq<char>) -> Seq<char> {
    strip_end_by(strip_start_by(raw, ws_pred()), url_tail_pred())
}

/// The URL in effect for a raw value: its normalized form, or the default
/// when that is empty or there is no value at all.
pub open spec fn resolved_url(raw: Option<Seq<char>>) -> Seq<char> {
    match raw {
        Some(u) => if normalized_url(u).len() > 0 {
            normalized_url(u)
        } else {
            DEFAULT_LICHESS_API_URL@
        },
        None => DEFAULT_LICHESS_API_URL@,
    }
}

/// Whether an environment value pins the URL: it is set and not blank.
pub open spec fn env_pins(env: Option<Seq<char>>) -> bool {
    match env {
        Some(e) => trimmed(e).len() > 0,
        None => false,
    }
}

/// `raw` with `/api` appended unless already there; blank gives the default.
pub open spec fn with_api_suffix(raw: Seq<char>) -> Seq<char> {
    let url = normalized_url(raw);
    if url.len() == 0 {
        DEFAULT_LICHESS_API_URL@
    } else if has_suffix(url, LICHESS_API_URL_SUFFIX@) {
        url
    } else {
        url + LICHESS_API_URL_SUFFIX@
    }
}

/// `scopes[]=a&scopes[]=b...` for the given scopes.
pub open spec fn scope_query(scopes: Seq<Seq<char>>) -> Seq<char>
    decreases scopes.len(),
{
    if scopes.len() == 0 {
        Seq::empty()
    } else if scopes.len() == 1 {
        "scopes[]="@ + scopes[0]
    } else {
        scope_query(scopes.drop_last()) + "&"@ + "scopes[]="@ + scopes.last()
    }
}

/// The web root of the instance that serves `api_url`.
pub open spec fn web_root(api_url: Seq<char>) -> Seq<char> {
    let base = normalized_url(api_url);
    let stripped = if has_suffix(base, LICHESS_API_URL_SUFFIX@) {
        base.subrange(0, base.len() - LICHESS_API_URL_SUFFIX@.len())
    } else {
        base
    };
    trimmed_end_char(stripped, '/')
}

/// The token creation page of the instance serving `api_url`, with the
/// needed scopes pre-selected.
pub open spec fn token_create_url(api_url: Seq<char>) -> Seq<char> {
    web_root(api_url) + "/account/oauth/token/create?"@ + scope_query(token_scopes())
        + "&description="@ + LICHESS_TOKEN_DESCRIPTION@
}

/// The normalized characters of `raw`.
fn normalize_chars(raw: &str) -> (r: Vec<char>)
    ensures
        r@ == normalized_url(raw@),
{
    let v = chars_of(raw);
    let ghost ws = ws_pred();
    let ghost tail = url_tail_pred();
    let mut start: usize = 0;
    while start < v.len() && char_is_ws(v[start])
        invariant
            start <= v.len(),
            forall|i: int| 0 <= i < start ==> is_ws(#[trigger] v@[i]),
        decreases v.len() - start,
    {
        start += 1;
    }
    proof {
        lemma_strip_start_at(v@, ws, start as int);
    }
    let ghost mid = v@.subrange(start as int, v.len() as int);
    let mut end: usize = v.len();
    while end > start && (char_is_ws(v[end - 1]) || v[end - 1] == '/')
        invariant
            start <= end <= v.len(),
            forall|i: int| end <= i < v.len() ==> is_ws(#[trigger] v@[i]) || v@[i] == '/',
        decreases end,
    {
        end -= 1;
    }
    proof {
        let k = end - start;
        assert forall|i: int| k <= i < mid.len() implies tail(#[trigger] mid[i]) by {
            assert(mid[i] == v@[i + start]);
        }
        if k > 0 {
            assert(mid[k - 1] == v@[end - 1]);
        }
        lemma_strip_end_at(mid, tail, k);
        assert(mid.subrange(0, k) =~= v@.subrange(start as int, end as int));
    }
    slice_chars(&v, start, end)
}

/// Normalizes a raw Lichess API base URL, falling back to the default when
/// it is blank or absent.
pub fn resolve_lichess_api_url(raw: Option<String>) -> (r: String)
    ensures
        r@ == resolved_url(match raw {
            Some(s) => Some(s@),
            None => None,
        }),
{
    match raw {
        Some(url) => {
            let n = normalize_chars(url.as_str());
            if n.len() > 0 {
                string_of(&n)
            } else {
                String::from_str(DEFAULT_LICHESS_API_URL)
            }
        },
        None => String::from_str(DEFAULT_LICHESS_API_URL),
    }
}

/// The Lichess API base URL currently in the store.
pub fn lichess_api_url(store: &String) -> (r: String)
    ensures
        r@ == store@,
{
    store.clone()
}

/// Replaces the URL in the store by the normalized `raw` (the default if it
/// is blank) and returns what was stored.
pub fn set_lichess_api_url(store: &mut String, raw: &str) -> (r: String)
    ensures
        r@ == resolved_url(Some(raw@)),
        final(store)@ == r@,
{
    let resolved = resolve_lichess_api_url(Some(String::from_str(raw)));
    *store = resolved.clone();
    resolved
}

/// Whether the environment value pins the URL: set and not blank.
pub fn lichess_api_url_is_env_pinned(env: Option<&str>) -> (r: bool)
    ensures
        r == env_pins(match env {
            Some(e) => Some(e@),
            None => None,
        }),
{
    match env {
        Some(e) => {
            let v = chars_of(e);
            let t = trim_chars(&v);
            t.len() > 0
        },
        None => false,
    }
}

/// The URL to install at startup, or `None` to leave the current one.
/// The command-line flag wins, then a non-blank environment value (which is
/// already in effect, hence `None`), then the config file value.
pub fn startup_lichess_api_url(
    cli: Option<&str>,
    config: Option<&str>,
    env: Option<&str>,
) -> (r: Option<String>)
    ensures
        match cli {
            Some(c) => r matches Some(u) && u@ == resolved_url(Some(c@)),
            None => if env_pins(match env {
                Some(e) => Some(e@),
                None => None,
            }) {
                r is None
            } else {
                match config {
                    Some(c) => r matches Some(u) && u@ == resolved_url(Some(c@)),
                    None => r is None,
                }
            },
        },
{
    if let Some(cli) = cli {
        return Some(resolve_lichess_api_url(Some(String::from_str(cli))));
    }
    if lichess_api_url_is_env_pinned(env) {
        return None;
    }
    match config {
        Some(url) => Some(resolve_lichess_api_url(Some(String::from_str(url)))),
        None => None,
    }
}

/// Whether `raw` is a usable API base URL (an http or https URL), or blank,
/// which stands for the default.
pub fn is_valid_lichess_api_url(raw: &str) -> (r: bool)
    ensures
        r == ({
            let url = trimmed(raw@);
            url.len() == 0 || has_prefix(url, "http://"@) || has_prefix(url, "https://"@)
        }),
{
    let v = chars_of(raw);
    let url = trim_chars(&v);
    let http = chars_of("http://");
    let https = chars_of("https://");
    url.len() == 0 || starts_with(&url, &http) || starts_with(&url, &https)
}

/// Whether `raw` already ends with the `/api` path segment, ignoring
/// surrounding whitespace and trailing slashes; blank counts as having it.
pub fn lichess_api_url_has_suffix(raw: &str) -> (r: bool)
    ensures
        r == ({
            let url = normalized_url(raw@);
            url.len() == 0 || has_suffix(url, LICHESS_API_URL_SUFFIX@)
        }),
{
    let url = normalize_chars(raw);
    let suffix = chars_of(LICHESS_API_URL_SUFFIX);
    url.len() == 0 || ends_with(&url, &suffix)
}

/// `raw` with `/api` appended, unless it is already there.
pub fn append_lichess_api_suffix(raw: &str) -> (r: String)
    ensures
        r@ == with_api_suffix(raw@),
{
    let url = normalize_chars(raw);
    if url.len() == 0 {
        return String::from_str(DEFAULT_LICHESS_API_URL);
    }
    let suffix = chars_of(LICHESS_API_URL_SUFFIX);
    if ends_with(&url, &suffix) {
        string_of(&url)
    } else {
        string_of(&concat_chars(&url, &suffix))
    }
}

/// Builds the token creation URL for the instance serving `api_url`.
pub fn lichess_token_create_url(api_url: &str) -> (r: String)
    ensures
        r@ == token_create_url(api_url@),
{
    let base = normalize_chars(api_url);
    let suffix = chars_of(LICHESS_API_URL_SUFFIX);
    let stripped = if ends_with(&base, &suffix) {
        slice_chars(&base, 0, base.len() - suffix.len())
    } else {
        base
    };
    let root = trim_end_char(&stripped, '/');
    let scopes = lichess_token_scopes();
    let mut query: Vec<char> = Vec::new();
    let prefix = chars_of("scopes[]=");
    let amp = chars_of("&");
    let mut i: usize = 0;
    while i < scopes.len()
        invariant
            scopes@.len() == 4,
            forall|j: int| 0 <= j < 4 ==> #[trigger] scopes@[j]@ == token_scopes()[j],
            prefix@ == "scopes[]="@,
            amp@ == "&"@,
            i <= 4,
            query@ == scope_query(token_scopes().subrange(0, i as int)),
        decreases 4 - i,
    {
        let scope = chars_of(scopes[i]);
        let item = concat_chars(&prefix, &scope);
        proof {
            let s = token_scopes().subrange(0, i as int + 1);
            assert(s.drop_last() =~= token_scopes().subrange(0, i as int));
            assert(s.last() == token_scopes()[i as int]);
        }
        if i == 0 {
            query = item;
            proof {
                assert(query@ =~= scope_query(token_scopes().subrange(0, 1)));
            }
        } else {
            let q = concat_chars(&query, &amp);
            query = concat_chars(&q, &item);
            proof {
                assert(query@ =~= scope_query(token_scopes().subrange(0, i as int + 1)));
            }
        }
        i += 1;
    }
    proof {
        assert(token_scopes().subrange(0, 4) =~= token_scopes());
    }
    let mut r = concat_chars(&root, &chars_of("/account/oauth/token/create?"));
    r = concat_chars(&r, &query);
    r = concat_chars(&r, &chars_of("&description="));
    r = concat_chars(&r, &chars_of(LICHESS_TOKEN_DESCRIPTION));
    string_of(&r)
}

/// The normalized form of a URL that ends in a character other than
/// whitespace or a slash, and begins with a non-whitespace character, is the
/// URL itself.
proof fn lemma_normalized_fixed(u: Seq<char>)
    requires
        u.len() > 0,
        !is_ws(u[0]),
        !is_ws(u.last()),
        u.last() != '/',
    ensures
        normalized_url(u) == u,
{
    lemma_strip_start_keeps(u, ws_pred());
    lemma_strip_end_keeps(u, url_tail_pred());
}

/// A non-empty normalized URL begins with a non-whitespace character and
/// ends with neither whitespace nor a slash.
proof fn lemma_normalized_head(raw: Seq<char>)
    requires
        normalized_url(raw).len() > 0,
    ensures
        !is_ws(normalized_url(raw)[0]),
        !is_ws(normalized_url(raw).last()),
        normalized_url(raw).last() != '/',
{
    let a = strip_start_by(raw, ws_pred());
    let c = strip_end_by(a, url_tail_pred());
    lemma_strip_end_prefix(a, url_tail_pred());
    lemma_strip_start_head(raw, ws_pred());
    assert(c[0] == a[0]);
    assert(!ws_pred()(a[0]));
    lemma_strip_end_head(a, url_tail_pred());
    assert(!url_tail_pred()(c.last()));
}

/// A URL in normalized form has no whitespace around it and no trailing
/// slash, and normalizing it again changes nothing.
pub proof fn lemma_normalized_url_is_clean(raw: Seq<char>)
    ensures
        normalized_url(raw).len() > 0 ==> {
            let u = normalized_url(raw);
            !is_ws(u[0]) && !is_ws(u.last()) && u.last() != '/'
        },
        normalized_url(normalized_url(raw)) == normalized_url(raw),
{
    let u = normalized_url(raw);
    if u.len() > 0 {
        lemma_normalized_head(raw);
        lemma_normalized_fixed(u);
    } else {
        assert(strip_start_by(u, ws_pred()) == u);
        assert(strip_end_by(u, url_tail_pred()) == u);
    }
}

/// Appending the suffix to a URL that already had it appended changes
/// nothing.
pub proof fn lemma_append_suffix_idempotent(raw: Seq<char>)
    ensures
        with_api_suffix(with_api_suffix(raw)) == with_api_suffix(raw),
{
    reveal_strlit("https://lichess.org/api");
    reveal_strlit("/api");
    let d = DEFAULT_LICHESS_API_URL@;
    let url = normalized_url(raw);
    let y = with_api_suffix(raw);
    if url.len() == 0 {
        lemma_normalized_fixed(d);
        assert(has_suffix(d, LICHESS_API_URL_SUFFIX@)) by {
            assert(d.subrange(d.len() - 4, d.len() as int) =~= "/api"@);
        }
    } else {
        lemma_normalized_head(raw);
        if has_suffix(url, LICHESS_API_URL_SUFFIX@) {
            assert(url.last() == url.subrange(url.len() - 4, url.len() as int)[3]);
            lemma_normalized_fixed(url);
        } else {
            assert(y[0] == url[0]);
            assert(y.last() == 'i');
            lemma_normalized_fixed(y);
            assert(y.subrange(y.len() - 4, y.len() as int) =~= "/api"@);
        }
    }
}

/// The URL with `/api` appended is normalized and ends with `/api` (so
/// `lichess_api_url_has_suffix` holds of it); a non-blank URL that already
/// ends with `/api` comes back in its normalized form.
pub proof fn lemma_append_suffix_has_it(raw: Seq<char>)
    ensures
        normalized_url(with_api_suffix(raw)) == with_api_suffix(raw),
        has_suffix(with_api_suffix(raw), LICHESS_API_URL_SUFFIX@),
        normalized_url(raw).len() > 0 && has_suffix(normalized_url(raw), LICHESS_API_URL_SUFFIX@)
            ==> with_api_suffix(raw) == normalized_url(raw),
{
    reveal_strlit("https://lichess.org/api");
    reveal_strlit("/api");
    let d = DEFAULT_LICHESS_API_URL@;
    let url = normalized_url(raw);
    let y = with_api_suffix(raw);
    if url.len() == 0 {
        lemma_normalized_fixed(d);
        assert(d.subrange(d.len() - 4, d.len() as int) =~= "/api"@);
    } else {
        lemma_normalized_head(raw);
        if has_suffix(url, LICHESS_API_URL_SUFFIX@) {
            assert(url.last() == url.subrange(url.len() - 4, url.len() as int)[3]);
            lemma_normalized_fixed(url);
        } else {
            assert(y[0] == url[0]);
            assert(y.last() == 'i');
            lemma_normalized_fixed(y);
            assert(y.subrange(y.len() - 4, y.len() as int) =~= "/api"@);
        }
    }
}

/// For a trimmed URL `u` without a trailing slash or `/api`, the token
/// creation page is the same whether `/api` or a slash is appended or not,
/// and it is the page under `u` itself.
pub proof fn lemma_token_url_ignores_api_and_slash(u: Seq<char>)
    requires
        u.len() > 0,
        !is_ws(u[0]),
        !is_ws(u.last()),
        u.last() != '/',
        !has_suffix(u, LICHESS_API_URL_SUFFIX@),
    ensures
        token_create_url(u + LICHESS_API_URL_SUFFIX@) == token_create_url(u),
        token_create_url(u + "/"@) == token_create_url(u),
        has_prefix(token_create_url(u), u + "/account/oauth/token/create?"@),
{
    reveal_strlit("/api");
    reveal_strlit("/");
    let sfx = LICHESS_API_URL_SUFFIX@;
    // `u` itself
    lemma_normalized_fixed(u);
    lemma_strip_end_keeps(u, char_pred('/'));
    assert(web_root(u) == u);
    // `u` with `/api`
    let v = u + sfx;
    assert(v[0] == u[0]);
    assert(v.last() == 'i');
    lemma_normalized_fixed(v);
    assert(v.subrange(v.len() - 4, v.len() as int) =~= sfx);
    assert(v.subrange(0, v.len() - 4) =~= u);
    assert(web_root(v) == u);
    // `u` with a slash
    let w = u + "/"@;
    assert(w[0] == u[0]);
    assert(w.last() == '/');
    lemma_strip_start_keeps(w, ws_pred());
    assert(w.drop_last() =~= u);
    assert(url_tail_pred()(w.last()));
    assert(strip_end_by(w, url_tail_pred()) == strip_end_by(u, url_tail_pred()));
    lemma_strip_end_keeps(u, url_tail_pred());
    assert(normalized_url(w) == u);
    assert(web_root(w) == u);
    let t = token_create_url(u);
    let p = u + "/account/oauth/token/create?"@;
    assert(t.subrange(0, p.len() as int) =~= p);
}

} // verus!
