use vstd::prelude::*;

use crate::http_success;
use crate::json::{field, Json};
use crate::web_api::WebApiError;

verus! {

/// What the catalog provider answers to a client-credentials request; `expires_in` is the
/// lifetime of the token in seconds.
#[derive(Debug)]
pub struct AuthData {
    pub access_token: String,
    pub token_type: String,
    pub expires_in: i64,
}

/// The fields of an authentication answer, where the JSON has all three with the right types.
pub open spec fn auth_fields(j: Json) -> Option<(Seq<char>, Seq<char>, i64)> {
    match (
        field(Some(j), "access_token"@),
        field(Some(j), "token_type"@),
        field(Some(j), "expires_in"@),
    ) {
        (Some(Json::Str(a)), Some(Json::Str(t)), Some(Json::Int(e))) => Some((a@, t@, e)),
        _ => None,
    }
}

impl AuthData {
    pub open spec fn spec_fields(&self) -> (Seq<char>, Seq<char>, i64) {
        (self.access_token@, self.token_type@, self.expires_in)
    }

    /// Reads an authentication answer from its JSON form.
    pub fn from_json(json: &Json) -> (r: Option<AuthData>)
        ensures
            r matches Some(a) ==> auth_fields(*json) == Some(a.spec_fields()),
            r is None ==> auth_fields(*json) is None,
    {
        let access_token = match json.get("access_token") {
            Some(Json::Str(s)) => s.clone(),
            _ => return None,
        };
        let token_type = match json.get("token_type") {
            Some(Json::Str(s)) => s.clone(),
            _ => return None,
        };
        let expires_in = match json.get("expires_in") {
            Some(Json::Int(v)) => *v,
            _ => return None,
        };
        Some(AuthData { access_token, token_type, expires_in })
    }
}

/// Decides an authentication answer: a status outside 200..=299 means the credentials were
/// refused; a body that is not the expected JSON is reported with its text.
pub fn auth_outcome(status: u16, body: String, json: Option<Json>) -> (r: Result<
    AuthData,
    WebApiError,
>)
    ensures
        !http_success(status) ==> r matches Err(WebApiError::InvalidToken),
        http_success(status) ==> match json {
            None => r matches Err(WebApiError::JsonParseError(b)) && b@ == body@,
            Some(j) => match auth_fields(j) {
                None => r matches Err(WebApiError::JsonParseError(b)) && b@ == body@,
                Some(f) => r matches Ok(a) && a.spec_fields() == f,
            },
        },
{
    if !(200 <= status && status <= 299) {
        return Err(WebApiError::InvalidToken);
    }
    match json {
        Some(j) => match AuthData::from_json(&j) {
            Some(a) => Ok(a),
            None => Err(WebApiError::JsonParseError(body)),
        },
        None => Err(WebApiError::JsonParseError(body)),
    }
}

} // verus!
