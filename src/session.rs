use vstd::prelude::*;

use crate::token::{instant_from_millis, instant_in_range, Cache};
use crate::token_store::TokenStoreError;
use crate::web_api;
use crate::web_api::WebApiError;
use crate::web_player;
use crate::web_player::WebPlayerError;
use crate::{Client, Error};

verus! {

/// Where one provider's session stands while sessions are acquired.
///
/// The two providers each have a branch of their own; a branch moves only on its own
/// provider's events, so one provider's failure never holds up the other.
#[derive(Debug)]
pub enum Branch<C> {
    /// The cache file is being read.
    Loading,
    /// The provider is being asked for a token; the flag says whether to keep it in the cache.
    Authenticating(bool),
    /// The new cache entry is being written; the session waits for it.
    Saving(C),
    /// The session is live.
    Ready(C),
    /// The branch failed for good.
    Failed(Error),
}

/// What a branch asks its driver to do next.
#[derive(Debug)]
pub enum Action {
    /// Read the provider's cache file.
    Load,
    /// Make one authentication request to the provider.
    Authenticate,
    /// Write this entry to the provider's cache file.
    Save(Cache),
    /// Nothing more: the branch is ready or failed.
    Finish,
}

/// The instant at which a catalog token expires: its lifetime in seconds after `now`.
pub open spec fn catalog_expiry(now: i64, expires_in: i64) -> int {
    now + expires_in * 1000
}

/// The first step of a branch: read the cache where one is kept, else authenticate.
pub fn start<C>(use_cache: bool) -> (r: (Branch<C>, Action))
    ensures
        use_cache ==> r.0 is Loading && r.1 is Load,
        !use_cache ==> r.0 == Branch::<C>::Authenticating(false) && r.1 is Authenticate,
{
    if use_cache {
        (Branch::Loading, Action::Load)
    } else {
        (Branch::Authenticating(false), Action::Authenticate)
    }
}

/// The token of a cache entry that can be used at `now`: one that exists and has not expired.
pub open spec fn reusable(loaded: Option<Cache>, now: i64) -> Option<Seq<char>> {
    match loaded {
        Some(c) => if c.expired_at(now as int) {
            None
        } else {
            Some(c.access_token@)
        },
        None => None,
    }
}

/// The entry to cache for a catalog token issued at `now`, where its expiry is an instant
/// that a cache entry holds.
pub fn catalog_cache(auth: &web_api::auth::AuthData, now: i64) -> (r: Option<Cache>)
    ensures
        r matches Some(c) ==> c.access_token@ == auth.access_token@ && c.expires_at
            == catalog_expiry(now, auth.expires_in),
        r is Some <==> instant_in_range(catalog_expiry(now, auth.expires_in)),
{
    let wide: i128 = now as i128 + auth.expires_in as i128 * 1000;
    if wide < i64::MIN as i128 || wide > i64::MAX as i128 {
        return None;
    }
    let expires_at = wide as i64;
    match instant_from_millis(expires_at) {
        Some(at) => Some(Cache { access_token: auth.access_token.clone(), expires_at: at }),
        None => None,
    }
}

/// The entry to cache for a lyrics token: its expiry is the instant the provider gave,
/// where a cache entry can hold it.
pub fn lyrics_cache(auth: &web_player::auth::AuthData) -> (r: Option<Cache>)
    ensures
        r matches Some(c) ==> c.access_token@ == auth.accessToken@ && c.expires_at
            == auth.accessTokenExpirationTimestampMs,
        r is Some <==> instant_in_range(auth.accessTokenExpirationTimestampMs as int),
{
    match instant_from_millis(auth.accessTokenExpirationTimestampMs) {
        Some(at) => Some(Cache { access_token: auth.accessToken.clone(), expires_at: at }),
        None => None,
    }
}

/// How a catalog branch moves on reading its cache file at `now`: an unreadable file fails
/// the branch; a live entry gives a session on its token with no request; a missing or
/// expired entry leads to one authentication request, whose token is to be cached.
pub open spec fn catalog_cache_step(
    loaded: Result<Option<Cache>, TokenStoreError>,
    now: i64,
    r: (Branch<web_api::Client>, Action),
) -> bool {
    match loaded {
        Err(e) => r.0 == Branch::<web_api::Client>::Failed(Error::TokenStoreError(e))
            && r.1 is Finish,
        Ok(c) => match reusable(c, now) {
            Some(t) => (r.0 matches Branch::Ready(s) && s@ == (t, Seq::<char>::empty(), 0i64))
                && r.1 is Finish,
            None => r.0 == Branch::<web_api::Client>::Authenticating(true) && r.1 is Authenticate,
        },
    }
}

/// How a lyrics branch moves on reading its cache file at `now`; as for the catalog.
pub open spec fn lyrics_cache_step(
    loaded: Result<Option<Cache>, TokenStoreError>,
    now: i64,
    r: (Branch<web_player::Client>, Action),
) -> bool {
    match loaded {
        Err(e) => r.0 == Branch::<web_player::Client>::Failed(Error::TokenStoreError(e))
            && r.1 is Finish,
        Ok(c) => match reusable(c, now) {
            Some(t) => (r.0 matches Branch::Ready(s) && s@ == (
                Seq::<char>::empty(),
                t,
                0i64,
                false,
            )) && r.1 is Finish,
            None => r.0 == Branch::<web_player::Client>::Authenticating(true) && r.1
                is Authenticate,
        },
    }
}

/// How a catalog branch moves on its authentication answer at `now`: a failure fails the
/// branch; a token becomes the session and, where the branch caches, is first written with
/// its expiry. No second request follows.
pub open spec fn catalog_auth_step(
    persist: bool,
    reply: Result<web_api::auth::AuthData, WebApiError>,
    now: i64,
    r: (Branch<web_api::Client>, Action),
) -> bool {
    match reply {
        Err(e) => r.0 == Branch::<web_api::Client>::Failed(Error::WebApiError(e)) && r.1 is Finish,
        Ok(a) => if !persist {
            (r.0 matches Branch::Ready(s) && s@ == a.spec_fields()) && r.1 is Finish
        } else {
            catalog_saves(r, a.spec_fields(), a.access_token@, catalog_expiry(now, a.expires_in))
        },
    }
}

/// How a lyrics branch moves on its authentication answer; as for the catalog, with the
/// expiry that the provider gave. An anonymous session is refused like a bad cookie: the
/// branch fails with `InvalidToken` and nothing is written.
pub open spec fn lyrics_auth_step(
    persist: bool,
    reply: Result<web_player::auth::AuthData, WebPlayerError>,
    r: (Branch<web_player::Client>, Action),
) -> bool {
    match reply {
        Err(e) => r.0 == Branch::<web_player::Client>::Failed(Error::WebPlayerError(e))
            && r.1 is Finish,
        Ok(a) => if a.isAnonymous {
            r.0 == Branch::<web_player::Client>::Failed(
                Error::WebPlayerError(WebPlayerError::InvalidToken),
            ) && r.1 is Finish
        } else if !persist {
            (r.0 matches Branch::Ready(s) && s@ == a.spec_fields()) && r.1 is Finish
        } else {
            lyrics_saves(r, a.spec_fields(), a.accessToken@, a.accessTokenExpirationTimestampMs as int)
        },
    }
}

/// How a branch moves once its cache entry has been written, or not: the waiting session
/// becomes live, or the branch fails with the store's error. Any other branch stays.
pub open spec fn saved_step<C>(branch: Branch<C>, saved: Result<(), TokenStoreError>, r: Branch<C>) -> bool {
    match branch {
        Branch::Saving(s) => match saved {
            Ok(_) => r == Branch::<C>::Ready(s),
            Err(e) => r == Branch::<C>::Failed(Error::TokenStoreError(e)),
        },
        _ => r == branch,
    }
}

/// A catalog branch that has read its cache file at `now`.
pub fn catalog_on_cache(loaded: Result<Option<Cache>, TokenStoreError>, now: i64) -> (r: (
    Branch<web_api::Client>,
    Action,
))
    ensures
        catalog_cache_step(loaded, now, r),
{
    match loaded {
        Err(e) => (Branch::Failed(Error::TokenStoreError(e)), Action::Finish),
        Ok(Some(c)) => if c.is_expired(now) {
            (Branch::Authenticating(true), Action::Authenticate)
        } else {
            (Branch::Ready(web_api::Client::from_token(c.access_token.as_str())), Action::Finish)
        },
        Ok(None) => (Branch::Authenticating(true), Action::Authenticate),
    }
}

/// A lyrics branch that has read its cache file at `now`.
pub fn lyrics_on_cache(loaded: Result<Option<Cache>, TokenStoreError>, now: i64) -> (r: (
    Branch<web_player::Client>,
    Action,
))
    ensures
        lyrics_cache_step(loaded, now, r),
{
    match loaded {
        Err(e) => (Branch::Failed(Error::TokenStoreError(e)), Action::Finish),
        Ok(Some(c)) => if c.is_expired(now) {
            (Branch::Authenticating(true), Action::Authenticate)
        } else {
            (
                Branch::Ready(web_player::Client::from_token(c.access_token.as_str())),
                Action::Finish,
            )
        },
        Ok(None) => (Branch::Authenticating(true), Action::Authenticate),
    }
}

/// The branch waits for its session while the entry for `token`, expiring at `expires_at`,
/// is written; where that instant is out of the range that an entry holds, the branch
/// instead fails with `Unknown` and nothing is written.
pub open spec fn catalog_saves(
    r: (Branch<web_api::Client>, Action),
    session: (Seq<char>, Seq<char>, i64),
    token: Seq<char>,
    expires_at: int,
) -> bool {
    let saving = (r.0 matches Branch::Saving(s) && s@ == session) && (r.1 matches Action::Save(c)
        && c.access_token@ == token && c.expires_at == expires_at);
    if instant_in_range(expires_at) {
        saving
    } else {
        r.0 matches Branch::Failed(Error::Unknown) && r.1 is Finish
    }
}

/// As `catalog_saves`, for the lyrics provider.
pub open spec fn lyrics_saves(
    r: (Branch<web_player::Client>, Action),
    session: (Seq<char>, Seq<char>, i64, bool),
    token: Seq<char>,
    expires_at: int,
) -> bool {
    let saving = (r.0 matches Branch::Saving(s) && s@ == session) && (r.1 matches Action::Save(c)
        && c.access_token@ == token && c.expires_at == expires_at);
    if instant_in_range(expires_at) {
        saving
    } else {
        r.0 matches Branch::Failed(Error::Unknown) && r.1 is Finish
    }
}

/// A catalog branch that has its authentication answer at `now`.
pub fn catalog_on_auth(
    persist: bool,
    reply: Result<web_api::auth::AuthData, WebApiError>,
    now: i64,
) -> (r: (Branch<web_api::Client>, Action))
    ensures
        catalog_auth_step(persist, reply, now, r),
{
    match reply {
        Err(e) => (Branch::Failed(Error::WebApiError(e)), Action::Finish),
        Ok(a) => if persist {
            match catalog_cache(&a, now) {
                Some(c) => (Branch::Saving(web_api::Client::from_auth_data(a)), Action::Save(c)),
                None => (Branch::Failed(Error::Unknown), Action::Finish),
            }
        } else {
            (Branch::Ready(web_api::Client::from_auth_data(a)), Action::Finish)
        },
    }
}

/// A lyrics branch that has its authentication answer.
pub fn lyrics_on_auth(
    persist: bool,
    reply: Result<web_player::auth::AuthData, WebPlayerError>,
) -> (r: (Branch<web_player::Client>, Action))
    ensures
        lyrics_auth_step(persist, reply, r),
{
    match reply {
        Err(e) => (Branch::Failed(Error::WebPlayerError(e)), Action::Finish),
        Ok(a) => if a.isAnonymous {
            (Branch::Failed(Error::WebPlayerError(WebPlayerError::InvalidToken)), Action::Finish)
        } else if persist {
            match lyrics_cache(&a) {
                Some(c) => (Branch::Saving(web_player::Client::from_auth_data(a)), Action::Save(c)),
                None => (Branch::Failed(Error::Unknown), Action::Finish),
            }
        } else {
            (Branch::Ready(web_player::Client::from_auth_data(a)), Action::Finish)
        },
    }
}

/// A branch whose cache entry has been written, or not.
pub fn on_saved<C>(branch: Branch<C>, saved: Result<(), TokenStoreError>) -> (r: Branch<C>)
    ensures
        saved_step(branch, saved, r),
{
    match branch {
        Branch::Saving(s) => match saved {
            Ok(_) => Branch::Ready(s),
            Err(e) => Branch::Failed(Error::TokenStoreError(e)),
        },
        other => other,
    }
}

/// One of the two providers.
#[derive(Debug, PartialEq, Eq, Structural)]
pub enum Provider {
    Catalog,
    Lyrics,
}

/// The outcome of an action, handed back by the driver.
#[derive(Debug)]
pub enum Event {
    CatalogLoaded(Result<Option<Cache>, TokenStoreError>),
    LyricsLoaded(Result<Option<Cache>, TokenStoreError>),
    CatalogAnswered(Result<web_api::auth::AuthData, WebApiError>),
    LyricsAnswered(Result<web_player::auth::AuthData, WebPlayerError>),
    CatalogSaved(Result<(), TokenStoreError>),
    LyricsSaved(Result<(), TokenStoreError>),
}

impl Event {
    /// The provider whose action this is the outcome of.
    pub open spec fn provider(&self) -> Provider {
        match self {
            Event::CatalogLoaded(_) | Event::CatalogAnswered(_) | Event::CatalogSaved(_) => {
                Provider::Catalog
            },
            _ => Provider::Lyrics,
        }
    }
}

/// The two branches of a session acquisition.
#[derive(Debug)]
pub struct Sessions {
    pub catalog: Branch<web_api::Client>,
    pub lyrics: Branch<web_player::Client>,
}

/// How a catalog branch moves on one of its events at `now`; an event that the branch does
/// not wait for leaves it as it is.
pub open spec fn catalog_event_step(
    before: Branch<web_api::Client>,
    event: Event,
    now: i64,
    r: (Branch<web_api::Client>, Action),
) -> bool {
    match event {
        Event::CatalogLoaded(l) => if before is Loading {
            catalog_cache_step(l, now, r)
        } else {
            r.0 == before && r.1 is Finish
        },
        Event::CatalogAnswered(reply) => match before {
            Branch::Authenticating(p) => catalog_auth_step(p, reply, now, r),
            _ => r.0 == before && r.1 is Finish,
        },
        Event::CatalogSaved(saved) => saved_step(before, saved, r.0) && r.1 is Finish,
        _ => r.0 == before && r.1 is Finish,
    }
}

/// How a lyrics branch moves on one of its events at `now`; as for the catalog.
pub open spec fn lyrics_event_step(
    before: Branch<web_player::Client>,
    event: Event,
    now: i64,
    r: (Branch<web_player::Client>, Action),
) -> bool {
    match event {
        Event::LyricsLoaded(l) => if before is Loading {
            lyrics_cache_step(l, now, r)
        } else {
            r.0 == before && r.1 is Finish
        },
        Event::LyricsAnswered(reply) => match before {
            Branch::Authenticating(p) => lyrics_auth_step(p, reply, r),
            _ => r.0 == before && r.1 is Finish,
        },
        Event::LyricsSaved(saved) => saved_step(before, saved, r.0) && r.1 is Finish,
        _ => r.0 == before && r.1 is Finish,
    }
}

impl Sessions {
    /// Both branches at their start, with the first action of each.
    pub fn start(use_cache: bool) -> (r: (Sessions, Action, Action))
        ensures
            use_cache ==> r.0.catalog is Loading && r.0.lyrics is Loading && r.1 is Load
                && r.2 is Load,
            !use_cache ==> r.0.catalog == Branch::<web_api::Client>::Authenticating(false)
                && r.0.lyrics == Branch::<web_player::Client>::Authenticating(false)
                && r.1 is Authenticate && r.2 is Authenticate,
    {
        let (catalog, a) = start(use_cache);
        let (lyrics, b) = start(use_cache);
        (Sessions { catalog, lyrics }, a, b)
    }

    /// Moves the branch of the event's provider, handled at `now`, and gives that provider's
    /// next action. The other branch is left exactly as it was: one provider's failure
    /// neither stops nor alters the other's progress, its request or its cache write.
    pub fn on_event(&mut self, event: Event, now: i64) -> (r: (Provider, Action))
        ensures
            r.0 == event.provider(),
            event.provider() == Provider::Catalog ==> final(self).lyrics == old(self).lyrics
                && catalog_event_step(old(self).catalog, event, now, (final(self).catalog, r.1)),
            event.provider() == Provider::Lyrics ==> final(self).catalog == old(self).catalog
                && lyrics_event_step(old(self).lyrics, event, now, (final(self).lyrics, r.1)),
    {
        match event {
            Event::CatalogLoaded(l) => {
                if matches!(self.catalog, Branch::Loading) {
                    let (b, a) = catalog_on_cache(l, now);
                    self.catalog = b;
                    (Provider::Catalog, a)
                } else {
                    (Provider::Catalog, Action::Finish)
                }
            },
            Event::CatalogAnswered(reply) => {
                match self.catalog {
                    Branch::Authenticating(p) => {
                        let (b, a) = catalog_on_auth(p, reply, now);
                        self.catalog = b;
                        (Provider::Catalog, a)
                    },
                    _ => (Provider::Catalog, Action::Finish),
                }
            },
            Event::CatalogSaved(saved) => {
                let mut b = Branch::Loading;
                core::mem::swap(&mut self.catalog, &mut b);
                self.catalog = on_saved(b, saved);
                (Provider::Catalog, Action::Finish)
            },
            Event::LyricsLoaded(l) => {
                if matches!(self.lyrics, Branch::Loading) {
                    let (b, a) = lyrics_on_cache(l, now);
                    self.lyrics = b;
                    (Provider::Lyrics, a)
                } else {
                    (Provider::Lyrics, Action::Finish)
                }
            },
            Event::LyricsAnswered(reply) => {
                match self.lyrics {
                    Branch::Authenticating(p) => {
                        let (b, a) = lyrics_on_auth(p, reply);
                        self.lyrics = b;
                        (Provider::Lyrics, a)
                    },
                    _ => (Provider::Lyrics, Action::Finish),
                }
            },
            Event::LyricsSaved(saved) => {
                let mut b = Branch::Loading;
                core::mem::swap(&mut self.lyrics, &mut b);
                self.lyrics = on_saved(b, saved);
                (Provider::Lyrics, Action::Finish)
            },
        }
    }

    /// The client once both branches are done: both sessions where both are live, else the
    /// catalog's error, else the lyrics provider's; `Unknown` while a branch is unfinished.
    pub fn finish(self) -> (r: Result<Client, Error>)
        ensures
            match (self.catalog, self.lyrics) {
                (Branch::Ready(a), Branch::Ready(p)) => r matches Ok(c) && c@ == (a@, p@),
                (Branch::Failed(e), _) => r == Err::<Client, Error>(e),
                (_, Branch::Failed(e)) => r == Err::<Client, Error>(e),
                _ => r matches Err(Error::Unknown),
            },
    {
        match (self.catalog, self.lyrics) {
            (Branch::Ready(a), Branch::Ready(p)) => Ok(Client { api_client: a, player_client: p }),
            (Branch::Failed(e), _) => Err(e),
            (_, Branch::Failed(e)) => Err(e),
            _ => Err(Error::Unknown),
        }
    }
}

/// A cache entry that has not expired is reused: the branch becomes a live session on the
/// stored token, unchanged, and asks for no request.
pub proof fn lemma_live_cache_reused(c: Cache, now: i64)
    requires
        !c.expired_at(now as int),
    ensures
        forall|r: (Branch<web_api::Client>, Action)|
            #[trigger] catalog_cache_step(Ok(Some(c)), now, r) ==> r.1 is Finish && (r.0 matches Branch::Ready(s)
                && s@.0 == c.access_token@),
        forall|r: (Branch<web_player::Client>, Action)|
            #[trigger] lyrics_cache_step(Ok(Some(c)), now, r) ==> r.1 is Finish && (r.0 matches Branch::Ready(s)
                && s@.1 == c.access_token@),
{
}

/// A missing or expired cache entry leads to exactly one authentication request: the branch
/// asks for one, and no answer to it leads to another.
pub proof fn lemma_stale_cache_refreshed(loaded: Option<Cache>, now: i64)
    requires
        loaded matches Some(c) ==> c.expired_at(now as int),
    ensures
        forall|r: (Branch<web_api::Client>, Action)|
            #[trigger] catalog_cache_step(Ok(loaded), now, r) ==> r.1 is Authenticate && r.0
                == Branch::<web_api::Client>::Authenticating(true),
        forall|r: (Branch<web_player::Client>, Action)|
            #[trigger] lyrics_cache_step(Ok(loaded), now, r) ==> r.1 is Authenticate && r.0
                == Branch::<web_player::Client>::Authenticating(true),
        forall|p: bool, reply: Result<web_api::auth::AuthData, WebApiError>, t: i64, r: (Branch<web_api::Client>, Action)|
            #[trigger] catalog_auth_step(p, reply, t, r) ==> !(r.1 is Authenticate),
        forall|p: bool, reply: Result<web_player::auth::AuthData, WebPlayerError>, r: (Branch<web_player::Client>, Action)|
            #[trigger] lyrics_auth_step(p, reply, r) ==> !(r.1 is Authenticate),
{
}

/// An anonymous lyrics session is never usable: whether or not the branch caches, it fails
/// with `InvalidToken`, gives no session and writes nothing.
pub proof fn lemma_anonymous_refused(persist: bool, a: web_player::auth::AuthData)
    requires
        a.isAnonymous,
    ensures
        forall|r: (Branch<web_player::Client>, Action)|
            #[trigger] lyrics_auth_step(persist, Ok(a), r) ==> r.0 == Branch::<web_player::Client>::Failed(
                Error::WebPlayerError(WebPlayerError::InvalidToken),
            ) && r.1 is Finish,
{
}

/// After a successful refresh the new entry is written, where its instant is one that an
/// entry holds, and it expires strictly after the instant of the refresh: for a catalog
/// token with a positive lifetime, and for a lyrics token that the provider says expires
/// after it.
pub proof fn lemma_refreshed_entry_later(
    catalog: web_api::auth::AuthData,
    lyrics: web_player::auth::AuthData,
    now: i64,
)
    requires
        catalog.expires_in > 0,
        lyrics.accessTokenExpirationTimestampMs > now,
        !lyrics.isAnonymous,
    ensures
        forall|r: (Branch<web_api::Client>, Action)|
            #[trigger] catalog_auth_step(true, Ok(catalog), now, r) ==> (r.1 matches Action::Save(c)
                ==> c.expires_at > now) && (instant_in_range(catalog_expiry(now, catalog.expires_in))
                ==> r.1 is Save),
        forall|r: (Branch<web_player::Client>, Action)|
            #[trigger] lyrics_auth_step(true, Ok(lyrics), r) ==> (r.1 matches Action::Save(c)
                ==> c.expires_at > now) && (instant_in_range(
                lyrics.accessTokenExpirationTimestampMs as int,
            ) ==> r.1 is Save),
{
}

} // verus!
