use spotics::args::{Mode, Selection};
use spotics::session::{catalog_cache, lyrics_cache, Action, Branch, Event, Provider, Sessions};
use spotics::token::{Cache, Token};
use spotics::token_store::{TokenStore, TokenStoreError};
use spotics::web_api::auth::AuthData as CatalogAuth;
use spotics::web_api::resource::TrackInfo;
use spotics::web_api::WebApiError;
use spotics::web_player::auth::AuthData as LyricsAuth;
use spotics::web_player::WebPlayerError;
use spotics::{credentials, select_track_by_identity, ClientBuilder, Error};

const NOW: i64 = 1_700_000_000_000;
const HOUR: i64 = 3_600_000;

fn cache(token: &str, expires_at: i64) -> Cache {
    Cache { access_token: token.to_string(), expires_at }
}

fn catalog_auth(token: &str, expires_in: i64) -> CatalogAuth {
    CatalogAuth { access_token: token.to_string(), token_type: "Bearer".to_string(), expires_in }
}

fn lyrics_auth(token: &str, expires_at: i64) -> LyricsAuth {
    LyricsAuth {
        clientId: "c".to_string(),
        accessToken: token.to_string(),
        accessTokenExpirationTimestampMs: expires_at,
        isAnonymous: false,
    }
}

fn started() -> Sessions {
    let (s, a, b) = Sessions::start(true);
    assert!(matches!((a, b), (Action::Load, Action::Load)));
    s
}

#[test]
fn live_cache_is_reused_without_request() {
    let mut s = started();
    let (p, a) = s.on_event(Event::CatalogLoaded(Ok(Some(cache("cached-api", NOW + HOUR)))), NOW);
    assert_eq!(p, Provider::Catalog);
    assert!(matches!(a, Action::Finish));
    let (p, a) = s.on_event(Event::LyricsLoaded(Ok(Some(cache("cached-player", NOW + HOUR)))), NOW);
    assert_eq!(p, Provider::Lyrics);
    assert!(matches!(a, Action::Finish));
    let client = s.finish().unwrap();
    assert_eq!(client.api_client().token().access_token, "cached-api");
    assert_eq!(client.player_client().token().accessToken, "cached-player");
}

#[test]
fn expired_cache_is_refreshed_once_and_saved_later() {
    let mut s = started();
    let (_, a) = s.on_event(Event::CatalogLoaded(Ok(Some(cache("old", NOW - 1)))), NOW);
    assert!(matches!(a, Action::Authenticate));
    let (_, a) = s.on_event(Event::CatalogAnswered(Ok(catalog_auth("fresh", 3600))), NOW);
    match a {
        Action::Save(c) => {
            assert_eq!(c.access_token, "fresh");
            assert_eq!(c.expires_at, NOW + HOUR);
            assert!(c.expires_at > NOW);
        }
        other => panic!("{other:?}"),
    }
    let (_, a) = s.on_event(Event::CatalogSaved(Ok(())), NOW);
    assert!(matches!(a, Action::Finish));
    assert!(matches!(&s.catalog, Branch::Ready(c) if c.token().access_token == "fresh" && c.token().expires_in == 3600));
}

#[test]
fn missing_cache_is_refreshed() {
    let mut s = started();
    let (_, a) = s.on_event(Event::LyricsLoaded(Ok(None)), NOW);
    assert!(matches!(a, Action::Authenticate));
    let (_, a) = s.on_event(Event::LyricsAnswered(Ok(lyrics_auth("t", NOW + HOUR))), NOW);
    assert!(matches!(a, Action::Save(c) if c.access_token == "t" && c.expires_at == NOW + HOUR));
}

#[test]
fn cache_expiring_now_is_still_live() {
    let mut s = started();
    let (_, a) = s.on_event(Event::CatalogLoaded(Ok(Some(cache("edge", NOW)))), NOW);
    assert!(matches!(a, Action::Finish));
}

#[test]
fn catalog_failure_leaves_lyrics_refresh_and_save() {
    let mut s = started();
    s.on_event(Event::CatalogLoaded(Ok(None)), NOW);
    s.on_event(Event::LyricsLoaded(Ok(None)), NOW);
    let (_, a) = s.on_event(Event::CatalogAnswered(Err(WebApiError::InvalidToken)), NOW);
    assert!(matches!(a, Action::Finish));
    assert!(matches!(s.catalog, Branch::Failed(Error::WebApiError(WebApiError::InvalidToken))));
    assert!(matches!(s.lyrics, Branch::Authenticating(true)));
    let (p, a) = s.on_event(Event::LyricsAnswered(Ok(lyrics_auth("lyr", NOW + HOUR))), NOW);
    assert_eq!(p, Provider::Lyrics);
    assert!(matches!(a, Action::Save(c) if c.access_token == "lyr"));
    s.on_event(Event::LyricsSaved(Ok(())), NOW);
    assert!(matches!(s.lyrics, Branch::Ready(_)));
    assert!(matches!(s.finish(), Err(Error::WebApiError(WebApiError::InvalidToken))));
}

#[test]
fn lyrics_failure_leaves_catalog_refresh_and_save() {
    let mut s = started();
    s.on_event(Event::CatalogLoaded(Ok(None)), NOW);
    s.on_event(Event::LyricsLoaded(Ok(None)), NOW);
    s.on_event(Event::LyricsAnswered(Err(WebPlayerError::InvalidToken)), NOW);
    let (_, a) = s.on_event(Event::CatalogAnswered(Ok(catalog_auth("cat", 60))), NOW);
    assert!(matches!(a, Action::Save(c) if c.access_token == "cat" && c.expires_at == NOW + 60_000));
    s.on_event(Event::CatalogSaved(Ok(())), NOW);
    assert!(matches!(s.catalog, Branch::Ready(_)));
    assert!(matches!(s.finish(), Err(Error::WebPlayerError(WebPlayerError::InvalidToken))));
}

#[test]
fn unreadable_cache_fails_the_branch() {
    let mut s = started();
    let (_, a) = s.on_event(Event::CatalogLoaded(Err(TokenStoreError::InvalidToken)), NOW);
    assert!(matches!(a, Action::Finish));
    assert!(matches!(s.catalog, Branch::Failed(Error::TokenStoreError(TokenStoreError::InvalidToken))));
}

#[test]
fn failed_save_fails_the_branch() {
    let mut s = started();
    s.on_event(Event::LyricsLoaded(Ok(None)), NOW);
    s.on_event(Event::LyricsAnswered(Ok(lyrics_auth("t", NOW + HOUR))), NOW);
    let io = std::io::Error::new(std::io::ErrorKind::PermissionDenied, "denied");
    s.on_event(Event::LyricsSaved(Err(TokenStoreError::FileAccessError(io))), NOW);
    assert!(matches!(s.lyrics, Branch::Failed(Error::TokenStoreError(TokenStoreError::FileAccessError(_)))));
}

#[test]
fn without_cache_both_authenticate_and_nothing_is_saved() {
    let (mut s, a, b) = Sessions::start(false);
    assert!(matches!((a, b), (Action::Authenticate, Action::Authenticate)));
    let (_, a) = s.on_event(Event::CatalogAnswered(Ok(catalog_auth("x", 10))), NOW);
    assert!(matches!(a, Action::Finish));
    let (_, a) = s.on_event(Event::LyricsAnswered(Ok(lyrics_auth("y", NOW))), NOW);
    assert!(matches!(a, Action::Finish));
    let c = s.finish().unwrap();
    assert_eq!(c.api_client().token().access_token, "x");
    assert_eq!(c.player_client().token().accessToken, "y");
}

#[test]
fn unfinished_sessions_are_unknown() {
    let s = started();
    assert!(matches!(s.finish(), Err(Error::Unknown)));
}

#[test]
fn expiry_out_of_clock_range_is_unknown() {
    assert!(lyrics_cache(&lyrics_auth("t", i64::MAX)).is_none());
    assert!(catalog_cache(&catalog_auth("t", i64::MAX), NOW).is_none());
    let mut s = started();
    s.on_event(Event::LyricsLoaded(Ok(None)), NOW);
    let (_, a) = s.on_event(Event::LyricsAnswered(Ok(lyrics_auth("t", i64::MAX))), NOW);
    assert!(matches!(a, Action::Finish));
    assert!(matches!(s.lyrics, Branch::Failed(Error::Unknown)));
}

#[test]
fn expiry_at_clock_range_edges() {
    let lo = -8_334_601_228_800_000i64;
    let hi = 8_210_266_876_799_999i64;
    assert_eq!(lyrics_cache(&lyrics_auth("t", lo)).unwrap().expires_at, lo);
    assert_eq!(lyrics_cache(&lyrics_auth("t", hi)).unwrap().expires_at, hi);
    assert!(lyrics_cache(&lyrics_auth("t", lo - 1)).is_none());
    assert!(lyrics_cache(&lyrics_auth("t", hi + 1)).is_none());
    assert!(catalog_cache(&catalog_auth("t", 1), hi - 1000).is_some());
    assert!(catalog_cache(&catalog_auth("t", 1), hi - 999).is_none());
    assert!(Cache { access_token: "t".to_string(), expires_at: hi }.to_json().is_some());
    assert!(Cache { access_token: "t".to_string(), expires_at: hi + 1 }.to_json().is_none());
}

#[test]
fn anonymous_answer_fails_the_branch_without_saving() {
    let mut s = started();
    s.on_event(Event::CatalogLoaded(Ok(Some(cache("c", NOW + HOUR)))), NOW);
    s.on_event(Event::LyricsLoaded(Ok(None)), NOW);
    let mut anon = lyrics_auth("anon", NOW + HOUR);
    anon.isAnonymous = true;
    let (_, a) = s.on_event(Event::LyricsAnswered(Ok(anon)), NOW);
    assert!(matches!(a, Action::Finish));
    assert!(matches!(s.finish(), Err(Error::WebPlayerError(WebPlayerError::InvalidToken))));
    let (mut s, _, _) = Sessions::start(false);
    let mut anon = lyrics_auth("anon", NOW + HOUR);
    anon.isAnonymous = true;
    s.on_event(Event::LyricsAnswered(Ok(anon)), NOW);
    assert!(matches!(s.lyrics, Branch::Failed(Error::WebPlayerError(WebPlayerError::InvalidToken))));
}

#[test]
fn cache_expiry_checks() {
    assert!(cache("a", NOW - 1).is_expired(NOW));
    assert!(!cache("a", NOW).is_expired(NOW));
    assert!(cache("a", i64::MIN).is_expired(0));
    assert!(!cache("a", i64::MAX).is_expired(NOW));
}

#[test]
fn credentials_rules() {
    let t = Token { client_id: "i".to_string(), client_secret: "s".to_string(), sp_dc: "d".to_string() };
    assert_eq!(credentials(Ok(Some(t))).unwrap().sp_dc, "d");
    assert!(matches!(credentials(Ok(None)), Err(Error::TokenNotFound)));
    assert!(matches!(credentials(Err(TokenStoreError::InvalidToken)), Err(Error::TokenStoreError(TokenStoreError::InvalidToken))));
}

#[test]
fn store_load_outcome() {
    let store: TokenStore<u32> = TokenStore::new("/tmp/x.json");
    assert_eq!(store.location(), "/tmp/x.json");
    assert!(matches!(store.load_outcome(false, Some(1)), Ok(None)));
    assert!(matches!(store.load_outcome(true, None), Err(TokenStoreError::InvalidToken)));
    assert!(matches!(store.load_outcome(true, Some(7)), Ok(Some(7))));
}

#[test]
fn builder_keeps_directories() {
    let b = ClientBuilder::new("/home/u/.config/spotics");
    assert_eq!(b.token_store(), "/home/u/.config/spotics");
    assert!(!b.uses_cache());
    assert_eq!(b.cache_store(), None);
    let b = b.use_cache("/home/u/.cache/spotics");
    assert!(b.uses_cache());
    assert_eq!(b.cache_store(), Some("/home/u/.cache/spotics"));
}

#[test]
fn mode_predicates_and_selection() {
    assert!(Mode::Manual.is_manual() && !Mode::Manual.is_auto() && !Mode::Manual.is_middle());
    assert!(Mode::Auto.is_auto() && Mode::Middle.is_middle());
    assert_eq!(Mode::Manual.selection(Some(0)), Selection::AskUser);
    assert_eq!(Mode::Auto.selection(Some(2)), Selection::Chosen(2));
    assert_eq!(Mode::Auto.selection(None), Selection::NotFound);
    assert_eq!(Mode::Middle.selection(None), Selection::AskUser);
}

#[test]
fn select_track_by_identity_picks_first_exact_match() {
    let t = |id: &str, a: &str| TrackInfo::new(id.to_string(), "Song".to_string(), a.to_string(), "Rec".to_string());
    let tracks = vec![t("0", "Other"), t("1", "Singer"), t("2", "Singer")];
    assert_eq!(select_track_by_identity(&tracks, "Song", "Singer", "Rec"), Some(1));
    assert_eq!(select_track_by_identity(&tracks, "Song", "singer", "Rec"), None);
    assert_eq!(select_track_by_identity(&Vec::new(), "Song", "Singer", "Rec"), None);
}
