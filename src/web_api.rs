use vstd::prelude::*;

pub mod auth;
pub mod resource;
pub mod search;

use auth::AuthData;

verus! {

/// What can go wrong in talking to the catalog provider.
#[derive(Debug)]
pub enum WebApiError {
    /// The request could not be made or its answer not read.
    HttpError(reqwest::Error),
    /// The client id or secret was refused.
    InvalidToken,
    /// The provider answered with this status and body.
    ApiError(u16, String),
    /// The body of a successful answer is not JSON of the expected shape.
    JsonParseError(String),
    /// The JSON of a successful answer lacks what was expected.
    UnexpectedResponse,
    Unknown,
}

/// A session with the catalog provider: the answer of the authentication that opened it.
#[derive(Debug)]
pub struct Client {
    auth_data: AuthData,
}

impl View for Client {
    type V = (Seq<char>, Seq<char>, i64);

    closed spec fn view(&self) -> (Seq<char>, Seq<char>, i64) {
        self.auth_data.spec_fields()
    }
}

impl Client {
    /// A session opened by an authentication answer.
    pub fn from_auth_data(auth_data: AuthData) -> (r: Self)
        ensures
            r@ == auth_data.spec_fields(),
    {
        Self { auth_data }
    }

    /// A session on an access token kept from an earlier run: no token type, no lifetime.
    pub fn from_token(access_token: &str) -> (r: Self)
        ensures
            r@ == (access_token@, Seq::<char>::empty(), 0i64),
    {
        Self {
            auth_data: AuthData {
                access_token: access_token.to_owned(),
                token_type: String::new(),
                expires_in: 0,
            },
        }
    }

    pub fn token(&self) -> (r: &AuthData)
        ensures
            r.spec_fields() == self@,
    {
        &self.auth_data
    }
}

} // verus!
