use vstd::prelude::*;

use crate::json::{field, member, Json};

verus! {

/// The long-lived credentials: the catalog provider's client id and secret, and the lyrics
/// provider's `sp_dc` cookie.
#[derive(Debug)]
pub struct Token {
    pub client_id: String,
    pub client_secret: String,
    pub sp_dc: String,
}

/// A cached access token and the instant at which it expires, in milliseconds since the epoch.
#[derive(Debug)]
pub struct Cache {
    pub access_token: String,
    pub expires_at: i64,
}

/// Whether chrono's `DateTime<Utc>` holds the instant `ms` (milliseconds since the epoch):
/// the days that `DateTime::from_timestamp` admits, up to 262142-12-31T23:59:59.999Z.
pub open spec fn instant_in_range(ms: int) -> bool {
    -8_334_601_228_800_000 <= ms <= 8_210_266_876_799_999
}

/// Relies on `chrono::DateTime::from_timestamp_millis`, which is `None` exactly outside
/// `instant_in_range` (the days that `from_timestamp` admits) and round-trips with
/// `timestamp_millis`.
#[verifier::external_body]
pub(crate) fn instant_from_millis(ms: i64) -> (r: Option<i64>)
    ensures
        r == (if instant_in_range(ms as int) {
            Some(ms)
        } else {
            None
        }),
{
    chrono::DateTime::from_timestamp_millis(ms).map(|d| d.timestamp_millis())
}

/// The RFC 3339 text of an instant given in milliseconds since the epoch, in UTC with
/// millisecond precision.
pub uninterp spec fn instant_text(ms: i64) -> Seq<char>;

/// The instant, in milliseconds since the epoch, that an RFC 3339 text denotes, where it is one.
pub uninterp spec fn instant_of_text(s: Seq<char>) -> Option<i64>;

/// Relies on `chrono::DateTime::to_rfc3339_opts` with `SecondsFormat::Millis` and `Z`,
/// on the instant that `DateTime::from_timestamp_millis` gives, which is `None` exactly
/// outside `instant_in_range`.
#[verifier::external_body]
fn format_instant(ms: i64) -> (r: Option<String>)
    ensures
        r matches Some(s) ==> s@ == instant_text(ms),
        r is Some <==> instant_in_range(ms as int),
{
    match chrono::DateTime::from_timestamp_millis(ms) {
        Some(d) => Some(d.to_rfc3339_opts(chrono::SecondsFormat::Millis, true)),
        None => None,
    }
}

/// Relies on `FromStr` for `chrono::DateTime<Utc>` (RFC 3339, relaxed), read back in
/// milliseconds by `DateTime::timestamp_millis`.
#[verifier::external_body]
fn parse_instant(s: &str) -> (r: Option<i64>)
    ensures
        r == instant_of_text(s@),
{
    match s.parse::<chrono::DateTime<chrono::Utc>>() {
        Ok(d) => Some(d.timestamp_millis()),
        Err(_) => None,
    }
}

/// The token and expiry of a cache document: `access_token` a string, and `expires_at` a
/// string that reads as an instant.
pub open spec fn cache_fields(j: Json) -> Option<(Seq<char>, i64)> {
    match (field(Some(j), "access_token"@), field(Some(j), "expires_at"@)) {
        (Some(Json::Str(t)), Some(Json::Str(e))) => match instant_of_text(e@) {
            Some(at) => Some((t@, at)),
            None => None,
        },
        _ => None,
    }
}

/// Whether `j` is the cache document of `token` expiring at `at`: an object with exactly
/// `access_token` and then `expires_at`, the instant written as RFC 3339 text.
pub open spec fn encodes(j: Json, token: Seq<char>, at: i64) -> bool {
    match j {
        Json::Object(m) => m@.len() == 2 && m@[0].0@ == "access_token"@ && m@[1].0@ == "expires_at"@
            && (m@[0].1 matches Json::Str(t) && t@ == token) && (m@[1].1 matches Json::Str(e) && e@
            == instant_text(at)),
        _ => false,
    }
}

/// Saving an entry and loading it back gives the same entry, wherever the clock library
/// reads back the instant it wrote (at millisecond precision, every instant it holds).
pub proof fn lemma_cache_round_trip(j: Json, token: Seq<char>, at: i64)
    requires
        encodes(j, token, at),
        instant_of_text(instant_text(at)) == Some(at),
    ensures
        cache_fields(j) == Some((token, at)),
{
    reveal_strlit("access_token");
    reveal_strlit("expires_at");
    assert("access_token"@.len() == 12);
    assert("expires_at"@.len() == 10);
    if let Json::Object(m) = j {
        assert(m@[0].0@ != "expires_at"@);
        assert(m@.drop_first()[0] == m@[1]);
        assert(member(m@, "access_token"@) == Some(m@[0].1));
        assert(member(m@.drop_first(), "expires_at"@) == Some(m@[1].1));
        assert(member(m@, "expires_at"@) == Some(m@[1].1));
    }
}

/// The three credentials of a credentials document, where each is a string.
pub open spec fn token_fields(j: Json) -> Option<(Seq<char>, Seq<char>, Seq<char>)> {
    match (
        field(Some(j), "client_id"@),
        field(Some(j), "client_secret"@),
        field(Some(j), "sp_dc"@),
    ) {
        (Some(Json::Str(a)), Some(Json::Str(b)), Some(Json::Str(c))) => Some((a@, b@, c@)),
        _ => None,
    }
}

impl Token {
    pub open spec fn spec_fields(&self) -> (Seq<char>, Seq<char>, Seq<char>) {
        (self.client_id@, self.client_secret@, self.sp_dc@)
    }

    /// Reads the credentials from their JSON document.
    pub fn from_json(json: &Json) -> (r: Option<Token>)
        ensures
            r matches Some(t) ==> token_fields(*json) == Some(t.spec_fields()),
            r is None ==> token_fields(*json) is None,
    {
        let client_id = match json.get("client_id") {
            Some(Json::Str(s)) => s.clone(),
            _ => return None,
        };
        let client_secret = match json.get("client_secret") {
            Some(Json::Str(s)) => s.clone(),
            _ => return None,
        };
        let sp_dc = match json.get("sp_dc") {
            Some(Json::Str(s)) => s.clone(),
            _ => return None,
        };
        Some(Token { client_id, client_secret, sp_dc })
    }
}

impl Cache {
    /// The document that this entry is saved as; none where its instant cannot be written.
    pub fn to_json(&self) -> (r: Option<Json>)
        ensures
            r matches Some(j) ==> encodes(j, self.access_token@, self.expires_at),
            r is Some <==> instant_in_range(self.expires_at as int),
    {
        let text = match format_instant(self.expires_at) {
            Some(t) => t,
            None => return None,
        };
        let mut members: Vec<(String, Json)> = Vec::new();
        members.push(("access_token".to_owned(), Json::Str(self.access_token.clone())));
        members.push(("expires_at".to_owned(), Json::Str(text)));
        Some(Json::Object(members))
    }

    /// Reads an entry from its saved document.
    pub fn from_json(json: &Json) -> (r: Option<Cache>)
        ensures
            r matches Some(c) ==> cache_fields(*json) == Some((c.access_token@, c.expires_at)),
            r is None ==> cache_fields(*json) is None,
    {
        let access_token = match json.get("access_token") {
            Some(Json::Str(s)) => s.clone(),
            _ => return None,
        };
        let expires_at = match json.get("expires_at") {
            Some(Json::Str(s)) => match parse_instant(s.as_str()) {
                Some(at) => at,
                None => return None,
            },
            _ => return None,
        };
        Some(Cache { access_token, expires_at })
    }

    /// Whether the entry has expired at `now`: its instant lies strictly before `now`.
    pub open spec fn expired_at(&self, now: int) -> bool {
        self.expires_at < now
    }

    /// Whether the entry has expired at `now`, in milliseconds since the epoch.
    pub fn is_expired(&self, now: i64) -> (r: bool)
        ensures
            r == self.expired_at(now as int),
    {
        self.expires_at < now
    }
}

} // verus!
