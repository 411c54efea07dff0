use vstd::prelude::*;
use vstd::string::*;

use crate::http_success;
use crate::json::{field, items, Json};
use crate::web_api::resource::{track_of, TrackInfo};
use crate::web_api::WebApiError;

verus! {

/// What to look for: a track by its title, artist and album.
#[derive(Debug)]
pub struct SearchQuery {
    title: String,
    artist: String,
    album: String,
}

/// The query text: the title as free text, then each field by its filter.
pub open spec fn query_text(title: Seq<char>, artist: Seq<char>, album: Seq<char>) -> Seq<char> {
    title + " track:"@ + title + " artist:"@ + artist + " album:"@ + album
}

impl View for SearchQuery {
    type V = (Seq<char>, Seq<char>, Seq<char>);

    closed spec fn view(&self) -> (Seq<char>, Seq<char>, Seq<char>) {
        (self.title@, self.artist@, self.album@)
    }
}

impl SearchQuery {
    pub fn new(title: &str, artist: &str, album: &str) -> (r: Self)
        ensures
            r@ == (title@, artist@, album@),
    {
        Self { title: title.to_owned(), artist: artist.to_owned(), album: album.to_owned() }
    }

    /// The query text sent to the catalog.
    pub fn to_text(&self) -> (r: String)
        ensures
            r@ == query_text(self@.0, self@.1, self@.2),
    {
        let mut r = String::new();
        r.append(self.title.as_str());
        r.append(" track:");
        r.append(self.title.as_str());
        r.append(" artist:");
        r.append(self.artist.as_str());
        r.append(" album:");
        r.append(self.album.as_str());
        assert(r@ =~= query_text(self@.0, self@.1, self@.2));
        r
    }
}

/// Whether every item is a well-formed track object.
pub open spec fn all_tracks(js: Seq<Json>) -> bool {
    forall|i: int| 0 <= i < js.len() ==> (#[trigger] track_of(js[i])) is Some
}

/// The tracks of a search answer, `tracks.items`, where every item is well-formed.
pub open spec fn tracks_of(j: Json) -> Option<Seq<(Seq<char>, Seq<char>, Seq<char>, Seq<char>)>> {
    match items(field(field(Some(j), "tracks"@), "items"@)) {
        Some(js) => if all_tracks(js) {
            Some(Seq::new(js.len(), |i: int| track_of(js[i])->0))
        } else {
            None
        },
        None => None,
    }
}

/// Decides the answer to a search: a status outside 200..=299 is reported with the body;
/// a body that is not JSON is reported with its text; otherwise the tracks are read from
/// `tracks.items`, in order.
pub fn search_outcome(status: u16, body: String, json: Option<Json>) -> (r: Result<
    Vec<TrackInfo>,
    WebApiError,
>)
    ensures
        !http_success(status) ==> (r matches Err(WebApiError::ApiError(s, b)) && s == status
            && b@ == body@),
        http_success(status) ==> match json {
            None => r matches Err(WebApiError::JsonParseError(b)) && b@ == body@,
            Some(j) => match tracks_of(j) {
                None => r matches Err(WebApiError::UnexpectedResponse),
                Some(ts) => r matches Ok(v) && v@.len() == ts.len() && forall|i: int|
                    0 <= i < ts.len() ==> (#[trigger] v@[i]).spec_fields() == ts[i],
            },
        },
{
    if !(200 <= status && status <= 299) {
        return Err(WebApiError::ApiError(status, body));
    }
    let doc = match &json {
        Some(j) => j,
        None => return Err(WebApiError::JsonParseError(body)),
    };
    let arr = match doc.get("tracks") {
        Some(t) => match t.get("items") {
            Some(i) => match i.as_array() {
                Some(a) => a,
                None => return Err(WebApiError::UnexpectedResponse),
            },
            None => return Err(WebApiError::UnexpectedResponse),
        },
        None => return Err(WebApiError::UnexpectedResponse),
    };
    let mut tracks: Vec<TrackInfo> = Vec::new();
    let mut i: usize = 0;
    while i < arr.len()
        invariant
            http_success(status),
            json == Some(*doc),
            items(field(field(Some(*doc), "tracks"@), "items"@)) == Some(arr@),
            i <= arr@.len(),
            tracks@.len() == i,
            forall|k: int| 0 <= k < i ==> (#[trigger] track_of(arr@[k])) == Some(tracks@[k].spec_fields()),
        decreases arr.len() - i,
    {
        let t = match TrackInfo::from_json(&arr[i]) {
            Ok(t) => t,
            Err(e) => {
                assert(track_of(arr@[i as int]) is None);
                assert(!all_tracks(arr@));
                return Err(e);
            },
        };
        tracks.push(t);
        i = i + 1;
    }
    Ok(tracks)
}

} // verus!
