use vstd::prelude::*;

use reqwest::Error as HttpFailure;
use std::io::Error as IoFailure;

use token::Token;
use token_store::TokenStoreError;
use web_api::resource::TrackInfo;

pub mod args;
pub mod decimal;
pub mod json;
pub mod lrc;
pub mod session;
pub mod token;
pub mod token_store;
pub mod web_api;
pub mod web_player;

verus! {

/// The error that `reqwest` reports for a request that failed; carried, never inspected.
#[verifier::external_type_specification]
#[verifier::external_body]
pub struct ExHttpFailure(HttpFailure);

/// The error of a failed file operation; carried, never inspected.
#[verifier::external_type_specification]
#[verifier::external_body]
pub struct ExIoFailure(IoFailure);

/// What can go wrong in acquiring sessions or using them.
#[derive(Debug)]
pub enum Error {
    TokenStoreError(token_store::TokenStoreError),
    WebApiError(web_api::WebApiError),
    WebPlayerError(web_player::WebPlayerError),
    /// No credentials are stored.
    TokenNotFound,
    Unknown,
}

/// Live sessions with both providers.
#[derive(Debug)]
pub struct Client {
    api_client: web_api::Client,
    player_client: web_player::Client,
}

impl View for Client {
    type V = ((Seq<char>, Seq<char>, i64), (Seq<char>, Seq<char>, i64, bool));

    closed spec fn view(&self) -> ((Seq<char>, Seq<char>, i64), (Seq<char>, Seq<char>, i64, bool)) {
        (self.api_client@, self.player_client@)
    }
}

impl Client {
    /// The session with the catalog provider.
    pub fn api_client(&self) -> (r: &web_api::Client)
        ensures
            r@ == self@.0,
    {
        &self.api_client
    }

    /// The session with the lyrics provider.
    pub fn player_client(&self) -> (r: &web_player::Client)
        ensures
            r@ == self@.1,
    {
        &self.player_client
    }
}

/// Whether an HTTP status code reports success (200 to 299).
pub open spec fn http_success(status: u16) -> bool {
    200 <= status <= 299
}

/// The file, under the credentials directory, that holds the credentials.
pub const TOKEN_STORE_FILE: &'static str = "tokens.json";

/// The file, under the cache directory, that holds the catalog provider's cache entry.
pub const API_CACHE_STORE_FILE: &'static str = "api_cache.json";

/// The file, under the cache directory, that holds the lyrics provider's cache entry.
pub const PLAYER_CACHE_STORE_FILE: &'static str = "player_cache.json";

/// Where the credentials are kept, and where the cache entries are, if tokens are cached.
#[derive(Debug)]
pub struct ClientBuilder {
    token_store: String,
    use_cache: bool,
    cache_store: Option<String>,
}

impl View for ClientBuilder {
    type V = (Seq<char>, bool, Option<Seq<char>>);

    closed spec fn view(&self) -> (Seq<char>, bool, Option<Seq<char>>) {
        (
            self.token_store@,
            self.use_cache,
            match self.cache_store {
                Some(s) => Some(s@),
                None => None,
            },
        )
    }
}

impl ClientBuilder {
    /// Credentials kept under the directory `token_store`; no cache.
    pub fn new(token_store: &str) -> (r: Self)
        ensures
            r@ == (token_store@, false, None::<Seq<char>>),
    {
        Self { token_store: token_store.to_owned(), use_cache: false, cache_store: None }
    }

    /// Caches the access tokens under the directory `cache_store`.
    pub fn use_cache(self, cache_store: &str) -> (r: Self)
        ensures
            r@ == (self@.0, true, Some(cache_store@)),
    {
        Self { token_store: self.token_store, use_cache: true, cache_store: Some(cache_store.to_owned()) }
    }

    /// The directory that holds the credentials.
    pub fn token_store(&self) -> (r: &str)
        ensures
            r@ == self@.0,
    {
        self.token_store.as_str()
    }

    /// Whether access tokens are cached.
    pub fn uses_cache(&self) -> (r: bool)
        ensures
            r == self@.1,
    {
        self.use_cache
    }

    /// The directory that holds the cache entries, where tokens are cached.
    pub fn cache_store(&self) -> (r: Option<&str>)
        ensures
            r matches Some(s) ==> self@.2 == Some(s@),
            r is None ==> self@.2 is None,
    {
        match &self.cache_store {
            Some(s) => Some(s.as_str()),
            None => None,
        }
    }
}

/// The credentials, from what loading their store gave: an error of the store is passed on,
/// and a missing store means no credentials.
pub fn credentials(loaded: Result<Option<Token>, TokenStoreError>) -> (r: Result<Token, Error>)
    ensures
        match loaded {
            Ok(Some(t)) => r == Ok::<Token, Error>(t),
            Ok(None) => r matches Err(Error::TokenNotFound),
            Err(e) => r == Err::<Token, Error>(Error::TokenStoreError(e)),
        },
{
    match loaded {
        Ok(Some(t)) => Ok(t),
        Ok(None) => Err(Error::TokenNotFound),
        Err(e) => Err(Error::TokenStoreError(e)),
    }
}

/// Whether a track has exactly this title, artist and album.
pub open spec fn same_track(t: TrackInfo, title: Seq<char>, artist: Seq<char>, album: Seq<char>) -> bool {
    t.title@ == title && t.artist@ == artist && t.album@ == album
}

/// The position of the first track whose title, artist and album equal the given ones.
pub fn select_track_by_identity(tracks: &Vec<TrackInfo>, title: &str, artist: &str, album: &str) -> (r: Option<usize>)
    ensures
        r matches Some(i) ==> i < tracks@.len() && same_track(tracks@[i as int], title@, artist@, album@)
            && forall|k: int| 0 <= k < i ==> !same_track(#[trigger] tracks@[k], title@, artist@, album@),
        r is None ==> forall|k: int| 0 <= k < tracks@.len() ==> !same_track(#[trigger] tracks@[k], title@, artist@, album@),
{
    let mut i: usize = 0;
    while i < tracks.len()
        invariant
            i <= tracks@.len(),
            forall|k: int| 0 <= k < i ==> !same_track(#[trigger] tracks@[k], title@, artist@, album@),
        decreases tracks.len() - i,
    {
        let t = &tracks[i];
        if json::str_eq(t.title.as_str(), title) && json::str_eq(t.artist.as_str(), artist)
            && json::str_eq(t.album.as_str(), album) {
            return Some(i);
        }
        i = i + 1;
    }
    None
}

} // verus!
