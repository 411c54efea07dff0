use spotics::decimal::{decimal_string, parse_u64};
use spotics::json::Json;
use spotics::token::{Cache, Token};
use spotics::web_api::auth::auth_outcome as catalog_auth_outcome;
use spotics::web_api::resource::TrackInfo;
use spotics::web_api::search::{search_outcome, SearchQuery};
use spotics::web_api::WebApiError;
use spotics::web_player::auth::auth_outcome as lyrics_auth_outcome;
use spotics::web_player::lyric::lyrics_outcome;
use spotics::web_player::resource::Lyrics;
use spotics::web_player::WebPlayerError;

fn s(v: &str) -> Json {
    Json::Str(v.to_string())
}

fn obj(members: Vec<(&str, Json)>) -> Json {
    Json::Object(members.into_iter().map(|(k, v)| (k.to_string(), v)).collect())
}

fn track(id: &str, title: &str, artist: &str, album: &str) -> Json {
    obj(vec![
        ("id", s(id)),
        ("name", s(title)),
        ("artists", Json::Array(vec![obj(vec![("name", s(artist))]), obj(vec![("name", s("other"))])])),
        ("album", obj(vec![("name", s(album))])),
    ])
}

fn lyric_line(words: &str, start: &str) -> Json {
    obj(vec![("startTimeMs", s(start)), ("words", s(words)), ("syllables", Json::Array(vec![]))])
}

#[test]
fn parse_u64_reads_digits() {
    assert_eq!(parse_u64("0"), Some(0));
    assert_eq!(parse_u64("125050"), Some(125050));
    assert_eq!(parse_u64("+42"), Some(42));
    assert_eq!(parse_u64("18446744073709551615"), Some(u64::MAX));
}

#[test]
fn parse_u64_refuses_what_std_refuses() {
    for bad in ["", "+", "-1", "18446744073709551616", "12a", " 1", "1.0"] {
        assert_eq!(parse_u64(bad), None, "{bad}");
        assert!(bad.parse::<u64>().is_err());
    }
}

#[test]
fn decimal_string_matches_std() {
    for n in [0u64, 7, 10, 99, 1000, 1700000000, u64::MAX] {
        assert_eq!(decimal_string(n), n.to_string());
    }
}

#[test]
fn json_get_finds_members() {
    let j = obj(vec![("a", Json::Int(1)), ("b", s("x"))]);
    assert!(matches!(j.get("a"), Some(Json::Int(1))));
    assert_eq!(j.get("b").and_then(|v| v.as_str()), Some("x"));
    assert!(j.get("c").is_none());
    assert!(s("a").get("a").is_none());
    let arr = Json::Array(vec![Json::Null, Json::Bool(true)]);
    assert!(matches!(arr.at(1), Some(Json::Bool(true))));
    assert!(arr.at(2).is_none());
}

#[test]
fn track_from_json_reads_first_artist() {
    let t = TrackInfo::from_json(&track("id1", "Song", "Singer", "Record")).unwrap();
    assert_eq!((t.id.as_str(), t.title.as_str(), t.artist.as_str(), t.album.as_str()), ("id1", "Song", "Singer", "Record"));
}

#[test]
fn track_from_json_without_artists_fails() {
    let j = obj(vec![("id", s("1")), ("name", s("n")), ("artists", Json::Array(vec![])), ("album", obj(vec![("name", s("a"))]))]);
    assert!(matches!(TrackInfo::from_json(&j), Err(WebApiError::UnexpectedResponse)));
}

#[test]
fn track_text_shows_title_artist_album() {
    let t = TrackInfo::new("i".to_string(), "T".to_string(), "A".to_string(), "B".to_string());
    assert_eq!(t.to_text(), "Title: \"T\",  Artist: \"A\",  Album: \"B\"");
}

#[test]
fn search_query_text() {
    let q = SearchQuery::new("Song", "Singer", "Record");
    assert_eq!(q.to_text(), "Song track:Song artist:Singer album:Record");
}

#[test]
fn search_outcome_reads_tracks_in_order() {
    let body = obj(vec![("tracks", obj(vec![("items", Json::Array(vec![track("1", "a", "b", "c"), track("2", "d", "e", "f")]))]))]);
    let tracks = search_outcome(200, "{}".to_string(), Some(body)).unwrap();
    assert_eq!(tracks.len(), 2);
    assert_eq!(tracks[0].id, "1");
    assert_eq!(tracks[1].album, "f");
}

#[test]
fn search_outcome_errors() {
    assert!(matches!(search_outcome(401, "no".to_string(), None), Err(WebApiError::ApiError(401, b)) if b == "no"));
    assert!(matches!(search_outcome(200, "oops".to_string(), None), Err(WebApiError::JsonParseError(b)) if b == "oops"));
    assert!(matches!(search_outcome(200, "{}".to_string(), Some(obj(vec![]))), Err(WebApiError::UnexpectedResponse)));
    let bad = obj(vec![("tracks", obj(vec![("items", Json::Array(vec![track("1", "a", "b", "c"), s("x")]))]))]);
    assert!(matches!(search_outcome(200, "{}".to_string(), Some(bad)), Err(WebApiError::UnexpectedResponse)));
}

#[test]
fn lyrics_from_json_reads_lines() {
    let j = Json::Array(vec![lyric_line("one", "1000"), lyric_line("two", "2500")]);
    let l = Lyrics::from_json(&j).unwrap();
    assert_eq!(l.lines.len(), 2);
    assert_eq!((l.lines[1].words.as_str(), l.lines[1].start_time), ("two", 2500));
}

#[test]
fn lyrics_from_json_refuses_numeric_offsets() {
    let j = Json::Array(vec![obj(vec![("words", s("w")), ("startTimeMs", Json::Int(5))])]);
    assert!(matches!(Lyrics::from_json(&j), Err(WebPlayerError::UnexpectedResponse)));
    assert!(matches!(Lyrics::from_json(&s("x")), Err(WebPlayerError::UnexpectedResponse)));
}

#[test]
fn lyrics_outcome_reads_lyrics_lines() {
    let body = obj(vec![("lyrics", obj(vec![("lines", Json::Array(vec![lyric_line("la", "0")]))]))]);
    let l = lyrics_outcome(200, String::new(), Some(body)).unwrap();
    assert_eq!(l.lines[0].words, "la");
    assert!(matches!(lyrics_outcome(404, "gone".to_string(), None), Err(WebPlayerError::ApiError(404, b)) if b == "gone"));
    assert!(matches!(lyrics_outcome(200, "x".to_string(), None), Err(WebPlayerError::JsonParseError(b)) if b == "x"));
    assert!(matches!(lyrics_outcome(200, String::new(), Some(obj(vec![("lyrics", obj(vec![]))]))), Err(WebPlayerError::UnexpectedResponse)));
}

fn lyrics_auth_json(anonymous: bool) -> Json {
    obj(vec![
        ("clientId", s("cid")),
        ("accessToken", s("tok")),
        ("accessTokenExpirationTimestampMs", Json::Int(1700000000000)),
        ("isAnonymous", Json::Bool(anonymous)),
    ])
}

#[test]
fn anonymous_session_is_invalid_token() {
    let r = lyrics_auth_outcome(200, String::new(), Some(lyrics_auth_json(true)));
    assert!(matches!(r, Err(WebPlayerError::InvalidToken)));
}

#[test]
fn lyrics_auth_outcome_cases() {
    let a = lyrics_auth_outcome(200, String::new(), Some(lyrics_auth_json(false))).unwrap();
    assert_eq!(a.accessToken, "tok");
    assert_eq!(a.accessTokenExpirationTimestampMs, 1700000000000);
    assert!(matches!(lyrics_auth_outcome(401, String::new(), Some(lyrics_auth_json(false))), Err(WebPlayerError::InvalidToken)));
    assert!(matches!(lyrics_auth_outcome(200, "<html>".to_string(), None), Err(WebPlayerError::JsonParseError(b)) if b == "<html>"));
    let missing = obj(vec![("accessToken", s("t"))]);
    assert!(matches!(lyrics_auth_outcome(200, "b".to_string(), Some(missing)), Err(WebPlayerError::JsonParseError(_))));
}

#[test]
fn catalog_auth_outcome_cases() {
    let ok = obj(vec![("access_token", s("abc")), ("token_type", s("Bearer")), ("expires_in", Json::Int(3600))]);
    let a = catalog_auth_outcome(200, String::new(), Some(ok)).unwrap();
    assert_eq!((a.access_token.as_str(), a.token_type.as_str(), a.expires_in), ("abc", "Bearer", 3600));
    assert!(matches!(catalog_auth_outcome(400, String::new(), None), Err(WebApiError::InvalidToken)));
    let bad = obj(vec![("access_token", s("abc")), ("token_type", s("Bearer")), ("expires_in", s("3600"))]);
    assert!(matches!(catalog_auth_outcome(200, "b".to_string(), Some(bad)), Err(WebApiError::JsonParseError(b)) if b == "b"));
}

#[test]
fn credentials_from_json() {
    let j = obj(vec![("client_id", s("id")), ("client_secret", s("secret")), ("sp_dc", s("cookie"))]);
    let t = Token::from_json(&j).unwrap();
    assert_eq!((t.client_id.as_str(), t.client_secret.as_str(), t.sp_dc.as_str()), ("id", "secret", "cookie"));
    assert!(Token::from_json(&obj(vec![("client_id", s("id"))])).is_none());
}

#[test]
fn cache_document_round_trip() {
    for at in [0i64, 1_700_000_000_123, -86_400_001, 253_402_300_799_999] {
        let c = Cache { access_token: "tok".to_string(), expires_at: at };
        let j = c.to_json().unwrap();
        let back = Cache::from_json(&j).unwrap();
        assert_eq!((back.access_token.as_str(), back.expires_at), ("tok", at));
    }
}

#[test]
fn cache_document_is_rfc3339() {
    let c = Cache { access_token: "t".to_string(), expires_at: 1_516_991_409_453 };
    let j = c.to_json().unwrap();
    assert_eq!(j.get("expires_at").and_then(|v| v.as_str()), Some("2018-01-26T18:30:09.453Z"));
    assert_eq!(j.get("access_token").and_then(|v| v.as_str()), Some("t"));
}

#[test]
fn cache_document_reads_serde_timestamps() {
    let j = obj(vec![("access_token", s("a")), ("expires_at", s("2023-11-14T22:13:20.123456789Z"))]);
    let c = Cache::from_json(&j).unwrap();
    assert_eq!(c.expires_at, 1_700_000_000_123);
    let bad = obj(vec![("access_token", s("a")), ("expires_at", s("tomorrow"))]);
    assert!(Cache::from_json(&bad).is_none());
}

#[test]
fn cache_document_out_of_clock_range_is_not_written() {
    let c = Cache { access_token: "t".to_string(), expires_at: i64::MAX };
    assert!(c.to_json().is_none());
}
