use std::path::PathBuf;

use musicbirb::art::{cover_file_name, ArtCache};
use musicbirb::auth::{AuthCredential, AuthStep, Authenticator, Connection, ProviderKind};
use musicbirb::backend::{mpv_change_event, EngineEvent, MpvChange, PlayerStatus};
use musicbirb::error::{FfiInitError, MusicbirbError, Retryable};
use musicbirb::ffi::WithTokio;
use musicbirb::login::{handle_login_input, LoginAction, LoginFocus, LoginKey, LoginState};
use musicbirb::models::{CoverArtId, ReplayGainMode, TrackId};
use musicbirb::playback::{choose_gain, mpv_status, same_album_as_previous};
use musicbirb::query::{keys_to_invalidate, match_pattern, QueryState};
use musicbirb::scrobble::{ScrobbleEntry, ScrobbleManager};
use musicbirb::settings::{clamp_selection, AccountConfig, AppSettings};
use musicbirb::text::{join_str, decimal, signed_decimal, starts_with, str_eq, trim_trailing_slashes};
use musicbirb::tui::{account_id, parse_command, startup_plan, InputCommand, StartupPlan};

fn account(id: &str) -> AccountConfig {
    AccountConfig {
        id: id.to_string(),
        provider: "subsonic".to_string(),
        url: "http://s".to_string(),
        username: "u".to_string(),
    }
}

#[test]
fn error_messages_and_retries() {
    assert_eq!(MusicbirbError::Api("x".to_string()).message(), "Subsonic API error: x");
    assert_eq!(MusicbirbError::Network("down".to_string()).message(), "Network error: down");
    assert_eq!(MusicbirbError::Player("p".to_string()).message(), "Player error: p");
    assert_eq!(MusicbirbError::Internal("i".to_string()).message(), "Internal core error: i");
    assert_eq!(MusicbirbError::Auth("a".to_string()).message(), "Authentication error: a");
    assert_eq!(FfiInitError::Init("boom".to_string()).message(), "Initialization error: boom");
    assert!(MusicbirbError::Network(String::new()).is_transient());
    assert!(!MusicbirbError::Api(String::new()).is_transient());
    assert!(!MusicbirbError::Auth(String::new()).is_transient());
}

#[test]
fn invalidation_patterns() {
    assert!(match_pattern("NoArgs/*", "NoArgs/FetchAll"));
    assert!(match_pattern("Artist/*", "Artist/"));
    assert!(!match_pattern("Artist/*", "Album/x"));
    assert!(match_pattern("NoArgs/FetchAll", "NoArgs/FetchAll"));
    assert!(!match_pattern("NoArgs/FetchAll", "NoArgs/FetchAllX"));
    assert!(match_pattern("/*", "anything"));
    let keys: Vec<String> = vec!["Artist/1", "Album/2", "Artist/3", "Search/q"].into_iter().map(String::from).collect();
    assert_eq!(keys_to_invalidate("Artist/*", &keys), vec!["Artist/1".to_string(), "Artist/3".to_string()]);
    assert_eq!(keys_to_invalidate("Album/2", &keys), vec!["Album/2".to_string()]);
    assert!(keys_to_invalidate("Track/*", &keys).is_empty());
    let s: QueryState<u8> = QueryState::Data(3);
    assert_eq!(s, QueryState::Data(3));
}

#[test]
fn scrobbles_are_kept_until_flushed() {
    let mut m = ScrobbleManager::from_entries(vec![ScrobbleEntry { id: "old".to_string(), timestamp: 1 }]);
    m.push(&TrackId("a".to_string()), 2);
    let read = m.get_all();
    assert_eq!(read, vec![(TrackId("old".to_string()), 1), (TrackId("a".to_string()), 2)]);
    m.push(&TrackId("b".to_string()), 3);
    assert!(m.remove_flushed(read.len()));
    assert_eq!(m.get_all(), vec![(TrackId("b".to_string()), 3)]);
    assert!(!m.remove_flushed(5));
    assert_eq!(m.entries().len(), 1);
    assert!(m.remove_flushed(0));
    assert_eq!(m.entries().len(), 1);
}

#[test]
fn accounts_are_remembered_once_and_forgotten() {
    let mut s = AppSettings::default();
    s.remember_account(account("a"));
    s.remember_account(account("b"));
    s.remember_account(account("a"));
    assert_eq!(s.accounts.len(), 2);
    assert_eq!(s.active_account_id, Some("a".to_string()));
    s.forget_account("a");
    assert_eq!(s.accounts.len(), 1);
    assert_eq!(s.accounts[0].id, "b");
    assert_eq!(s.active_account_id, None);
    s.forget_account("zzz");
    assert_eq!(s.accounts.len(), 1);
    assert_eq!(clamp_selection(5, 2), 1);
    assert_eq!(clamp_selection(1, 2), 1);
    assert_eq!(clamp_selection(0, 0), 0);
    let d = account("c").duplicate();
    assert_eq!(d.id, "c");
}

#[test]
fn authenticator_choices() {
    let auth = Authenticator::new();
    assert_eq!(auth.get_supported_providers(), vec!["subsonic", "navidrome", "jellyfin", "plex"]);
    assert_eq!(auth.init_auth("navidrome".to_string(), "http://x".to_string()), Ok(AuthStep::UserPass));
    assert_eq!(
        auth.init_auth("plex".to_string(), String::new()),
        Err(MusicbirbError::Internal("Plex OAuth flow not yet implemented".to_string()))
    );
    assert_eq!(
        auth.init_auth("emby".to_string(), String::new()),
        Err(MusicbirbError::Internal("Unknown provider".to_string()))
    );
    let polled = auth.poll_browser_auth::<u8>("plex".to_string(), String::new(), String::new());
    assert!(matches!(polled, Err(MusicbirbError::Internal(m)) if m == "Plex polling not yet implemented"));
    let polled = auth.poll_browser_auth::<u8>("jellyfin".to_string(), String::new(), String::new());
    assert!(matches!(polled, Err(MusicbirbError::Internal(m)) if m == "Provider does not support browser auth"));
    assert_eq!(auth.password_login_kind("subsonic"), Ok(ProviderKind::Subsonic));
    assert_eq!(auth.password_login_kind("jellyfin"), Ok(ProviderKind::Jellyfin));
    assert_eq!(
        auth.password_login_kind("plex"),
        Err(MusicbirbError::Internal("Provider 'plex' does not support password login".to_string()))
    );
    assert_eq!(
        auth.credential_connection("navidrome", AuthCredential::Password("pw".to_string())),
        Ok(Connection::SubsonicPassword("pw".to_string()))
    );
    assert_eq!(
        auth.credential_connection("subsonic", AuthCredential::Token("t".to_string())),
        Err(MusicbirbError::Auth("Subsonic requires a password credential".to_string()))
    );
    assert_eq!(
        auth.credential_connection("jellyfin", AuthCredential::Token("t".to_string())),
        Ok(Connection::JellyfinToken("t".to_string()))
    );
    assert_eq!(
        auth.credential_connection("plex", AuthCredential::Token("t".to_string())),
        Err(MusicbirbError::Internal("Unknown provider".to_string()))
    );
}

#[test]
fn typed_commands() {
    assert!(matches!(parse_command("   "), InputCommand::Ignore));
    assert!(matches!(parse_command(" /logout "), InputCommand::Logout));
    assert!(matches!(parse_command("al:123"), InputCommand::QueueAlbum(id) if id == "123"));
    assert!(matches!(parse_command("pl:9"), InputCommand::QueuePlaylist(id) if id == "9"));
    assert!(matches!(parse_command("track-7"), InputCommand::QueueTrack(id) if id == "track-7"));
    assert_eq!(account_id("bob", "https://m.example.com:443"), "bob_https___m_example_com_443");
    assert_eq!(startup_plan(0), StartupPlan::AddAccount);
    assert_eq!(startup_plan(1), StartupPlan::AutoConnect);
    assert_eq!(startup_plan(3), StartupPlan::ChooseAccount);
}

#[test]
fn playback_choices() {
    assert_eq!(choose_gain(ReplayGainMode::Disabled, Some(1), Some(2), true), None);
    assert_eq!(choose_gain(ReplayGainMode::Track, Some(1), Some(2), true), Some(1));
    assert_eq!(choose_gain(ReplayGainMode::Track, None, Some(2), true), Some(2));
    assert_eq!(choose_gain(ReplayGainMode::Album, Some(1), Some(2), false), Some(2));
    assert_eq!(choose_gain(ReplayGainMode::Album, Some(1), None, false), Some(1));
    assert_eq!(choose_gain(ReplayGainMode::Auto, Some(1), Some(2), true), Some(2));
    assert_eq!(choose_gain(ReplayGainMode::Auto, Some(1), Some(2), false), Some(1));
    assert_eq!(choose_gain::<i8>(ReplayGainMode::Auto, None, None, false), None);
    assert!(same_album_as_previous("Blue", Some("Blue")));
    assert!(!same_album_as_previous("", Some("")));
    assert!(!same_album_as_previous("Blue", None));
    assert!(!same_album_as_previous("Blue", Some("Red")));
    assert_eq!(mpv_status(true, true, true, true), PlayerStatus::Stopped);
    assert_eq!(mpv_status(false, true, false, true), PlayerStatus::Buffering);
    assert_eq!(mpv_status(false, true, false, false), PlayerStatus::Paused);
    assert_eq!(mpv_status(false, false, false, false), PlayerStatus::Playing);
}

#[test]
fn cover_cache_paths() {
    let cache = ArtCache::in_dir(PathBuf::from("/tmp/art"));
    let id = CoverArtId("al-1".to_string());
    assert_eq!(cover_file_name(&id), "al-1.png");
    assert_eq!(cache.get_path(&id), PathBuf::from("/tmp/art/al-1.png"));
    assert_eq!(cache.directory(), &PathBuf::from("/tmp/art"));
    assert_ne!(cache.get_path(&CoverArtId("a".to_string())), cache.get_path(&CoverArtId("b".to_string())));
}

#[test]
fn runtime_wrapper_gives_the_future_back() {
    let w = WithTokio::new(41);
    assert_eq!(w.into_inner() + 1, 42);
}

#[test]
fn text_helpers() {
    assert!(str_eq("abc", "abc"));
    assert!(!str_eq("abc", "abd"));
    assert!(starts_with("abc", "ab"));
    assert!(!starts_with("a", "ab"));
    assert_eq!(join_str("ab", "cd"), "abcd");
    assert_eq!(decimal(0), "0");
    assert_eq!(decimal(18446744073709551615), "18446744073709551615");
    assert_eq!(signed_decimal(-9223372036854775808), "-9223372036854775808");
    assert_eq!(signed_decimal(42), "42");
    assert_eq!(trim_trailing_slashes("a///"), "a");
    assert_eq!(trim_trailing_slashes("///"), "");
}

#[test]
fn login_screen_flow() {
    let accounts = vec![account("one")];
    let mut state = LoginState::new();
    assert!(matches!(handle_login_input(LoginKey::Enter, &mut state, &accounts), LoginAction::Connect(a) if a.id == "one"));
    assert!(matches!(handle_login_input(LoginKey::Char('d'), &mut state, &accounts), LoginAction::Delete(a) if a.id == "one"));
    handle_login_input(LoginKey::Down, &mut state, &accounts);
    handle_login_input(LoginKey::Down, &mut state, &accounts);
    assert_eq!(state.selected_idx, 1);
    handle_login_input(LoginKey::Enter, &mut state, &accounts);
    assert_eq!(state.focus, LoginFocus::Provider);
    handle_login_input(LoginKey::Right, &mut state, &accounts);
    assert_eq!(state.provider, "jellyfin");
    handle_login_input(LoginKey::Left, &mut state, &accounts);
    assert_eq!(state.provider, "subsonic");
    handle_login_input(LoginKey::Tab, &mut state, &accounts);
    assert_eq!(state.focus, LoginFocus::Url);
    for c in "http://h".chars() {
        handle_login_input(LoginKey::Char(c), &mut state, &accounts);
    }
    handle_login_input(LoginKey::Char('x'), &mut state, &accounts);
    handle_login_input(LoginKey::Backspace, &mut state, &accounts);
    assert_eq!(state.url, "http://h");
    handle_login_input(LoginKey::Tab, &mut state, &accounts);
    handle_login_input(LoginKey::Char('u'), &mut state, &accounts);
    assert!(matches!(handle_login_input(LoginKey::Enter, &mut state, &accounts), LoginAction::Nothing));
    handle_login_input(LoginKey::Tab, &mut state, &accounts);
    handle_login_input(LoginKey::Char('p'), &mut state, &accounts);
    handle_login_input(LoginKey::BackTab, &mut state, &accounts);
    assert_eq!(state.focus, LoginFocus::User);
    match handle_login_input(LoginKey::Enter, &mut state, &accounts) {
        LoginAction::ConnectNew(p, url, user, pass) => {
            assert_eq!((p.as_str(), url.as_str(), user.as_str(), pass.as_str()), ("subsonic", "http://h", "u", "p"));
        },
        other => panic!("unexpected {:?}", other),
    }
    assert_eq!(state.pass, "");
    handle_login_input(LoginKey::Esc, &mut state, &accounts);
    assert_eq!(state.focus, LoginFocus::List);
    assert!(matches!(handle_login_input(LoginKey::Esc, &mut state, &accounts), LoginAction::Quit));
}

#[test]
fn mpv_property_changes() {
    assert_eq!(mpv_change_event(MpvChange::Pause(true)), Some(EngineEvent::Status(PlayerStatus::Paused)));
    assert_eq!(mpv_change_event(MpvChange::Pause(false)), Some(EngineEvent::Status(PlayerStatus::Playing)));
    assert_eq!(mpv_change_event(MpvChange::IdleActive(true)), Some(EngineEvent::Status(PlayerStatus::Stopped)));
    assert_eq!(mpv_change_event(MpvChange::IdleActive(false)), None);
    assert_eq!(mpv_change_event(MpvChange::PlaylistPos(0)), Some(EngineEvent::TrackStarted));
    assert_eq!(mpv_change_event(MpvChange::PlaylistPos(-1)), None);
}

#[test]
fn pushed_listens_read_back_in_order() {
    let mut m = ScrobbleManager::from_entries(Vec::new());
    for (i, id) in ["x", "y", "z"].iter().enumerate() {
        m.push(&TrackId(id.to_string()), i as u64 * 10);
    }
    let expected = vec![
        (TrackId("x".to_string()), 0),
        (TrackId("y".to_string()), 10),
        (TrackId("z".to_string()), 20),
    ];
    assert_eq!(m.get_all(), expected);
    assert_eq!(m.get_all(), expected);
}
