use vstd::prelude::*;

pub mod auth;
pub mod lyric;
pub mod resource;

use auth::AuthData;

verus! {

/// What can go wrong in talking to the lyrics provider.
#[derive(Debug)]
pub enum WebPlayerError {
    /// The request could not be made or its answer not read.
    HttpError(reqwest::Error),
    /// The cookie was refused, or it gave an anonymous session.
    InvalidToken,
    /// The provider answered with this status and body.
    ApiError(u16, String),
    /// The body of a successful answer is not JSON of the expected shape.
    JsonParseError(String),
    /// The JSON of a successful answer lacks what was expected.
    UnexpectedResponse,
    Unknown,
}

/// A session with the lyrics provider: the answer of the authentication that opened it.
#[derive(Debug)]
pub struct Client {
    auth_data: AuthData,
}

impl View for Client {
    type V = (Seq<char>, Seq<char>, i64, bool);

    closed spec fn view(&self) -> (Seq<char>, Seq<char>, i64, bool) {
        self.auth_data.spec_fields()
    }
}

impl Client {
    /// A session opened by an authentication answer.
    pub fn from_auth_data(auth_data: AuthData) -> (r: Self)
        ensures
            r@ == auth_data.spec_fields(),
    {
        Self { auth_data }
    }

    /// A session on an access token kept from an earlier run: no client id, no expiry,
    /// not anonymous.
    pub fn from_token(access_token: &str) -> (r: Self)
        ensures
            r@ == (Seq::<char>::empty(), access_token@, 0i64, false),
    {
        Self {
            auth_data: AuthData {
                clientId: String::new(),
                accessToken: access_token.to_owned(),
                accessTokenExpirationTimestampMs: 0,
                isAnonymous: false,
            },
        }
    }

    pub fn token(&self) -> (r: &AuthData)
        ensures
            r.spec_fields() == self@,
    {
        &self.auth_data
    }
}

} // verus!
