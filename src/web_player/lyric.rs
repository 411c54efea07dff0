use vstd::prelude::*;

use crate::http_success;
use crate::json::{field, Json};
use crate::web_player::resource::{lines_of, Lyrics};
use crate::web_player::WebPlayerError;

verus! {

/// Decides the answer to a lyrics request: a status outside 200..=299 is reported with the
/// body; a body that is not JSON is reported with its text; otherwise the lines are read
/// from `lyrics.lines`.
pub fn lyrics_outcome(status: u16, body: String, json: Option<Json>) -> (r: Result<
    Lyrics,
    WebPlayerError,
>)
    ensures
        !http_success(status) ==> (r matches Err(WebPlayerError::ApiError(s, b)) && s == status
            && b@ == body@),
        http_success(status) ==> match json {
            None => r matches Err(WebPlayerError::JsonParseError(b)) && b@ == body@,
            Some(j) => match field(field(Some(j), "lyrics"@), "lines"@) {
                None => r matches Err(WebPlayerError::UnexpectedResponse),
                Some(lines) => match lines_of(lines) {
                    None => r matches Err(WebPlayerError::UnexpectedResponse),
                    Some(ls) => r matches Ok(l) && l.spec_lines() == ls,
                },
            },
        },
{
    if !(200 <= status && status <= 299) {
        return Err(WebPlayerError::ApiError(status, body));
    }
    let json = match json {
        Some(j) => j,
        None => return Err(WebPlayerError::JsonParseError(body)),
    };
    let lines = match json.get("lyrics") {
        Some(l) => match l.get("lines") {
            Some(lines) => lines,
            None => return Err(WebPlayerError::UnexpectedResponse),
        },
        None => return Err(WebPlayerError::UnexpectedResponse),
    };
    Lyrics::from_json(lines)
}

} // verus!
