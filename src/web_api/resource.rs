use vstd::prelude::*;
use vstd::string::*;

use crate::json::{element, field, text, Json};
use crate::web_api::WebApiError;

verus! {

/// A track of the catalog: its id and what it is shown by.
#[derive(Debug)]
pub struct TrackInfo {
    pub id: String,
    pub title: String,
    pub artist: String,
    pub album: String,
}

/// The id, title, first artist and album of a track object: `id`, `name`,
/// `artists[0].name` and `album.name`, each a string.
pub open spec fn track_of(j: Json) -> Option<(Seq<char>, Seq<char>, Seq<char>, Seq<char>)> {
    match (
        text(field(Some(j), "id"@)),
        text(field(Some(j), "name"@)),
        text(field(element(field(Some(j), "artists"@), 0), "name"@)),
        text(field(field(Some(j), "album"@), "name"@)),
    ) {
        (Some(id), Some(title), Some(artist), Some(album)) => Some((id, title, artist, album)),
        _ => None,
    }
}

/// How a track is shown to the user.
pub open spec fn track_text(title: Seq<char>, artist: Seq<char>, album: Seq<char>) -> Seq<char> {
    "Title: \""@ + title + "\",  Artist: \""@ + artist + "\",  Album: \""@ + album + "\""@
}

fn get_text(json: Option<&Json>) -> (r: Option<String>)
    ensures
        r matches Some(s) ==> json matches Some(j) && text(Some(*j)) == Some(s@),
        r is None ==> json is None || text(Some(*json->0)) is None,
{
    match json {
        Some(j) => match j.as_str() {
            Some(s) => Some(s.to_owned()),
            None => None,
        },
        None => None,
    }
}

impl TrackInfo {
    pub open spec fn spec_fields(&self) -> (Seq<char>, Seq<char>, Seq<char>, Seq<char>) {
        (self.id@, self.title@, self.artist@, self.album@)
    }

    pub fn new(id: String, title: String, artist: String, album: String) -> (r: Self)
        ensures
            r.spec_fields() == (id@, title@, artist@, album@),
    {
        Self { id, title, artist, album }
    }

    /// Reads a track from a track object of a search answer.
    pub fn from_json(json: &Json) -> (r: Result<TrackInfo, WebApiError>)
        ensures
            r matches Ok(t) ==> track_of(*json) == Some(t.spec_fields()),
            r matches Err(e) ==> track_of(*json) is None && e is UnexpectedResponse,
    {
        let id = match get_text(json.get("id")) {
            Some(s) => s,
            None => return Err(WebApiError::UnexpectedResponse),
        };
        let title = match get_text(json.get("name")) {
            Some(s) => s,
            None => return Err(WebApiError::UnexpectedResponse),
        };
        let first_artist = match json.get("artists") {
            Some(a) => a.at(0),
            None => None,
        };
        let artist = match first_artist {
            Some(a) => get_text(a.get("name")),
            None => None,
        };
        let artist = match artist {
            Some(s) => s,
            None => return Err(WebApiError::UnexpectedResponse),
        };
        let album = match json.get("album") {
            Some(a) => get_text(a.get("name")),
            None => None,
        };
        let album = match album {
            Some(s) => s,
            None => return Err(WebApiError::UnexpectedResponse),
        };
        Ok(Self::new(id, title, artist, album))
    }

    /// How the track is shown to the user.
    pub fn to_text(&self) -> (r: String)
        ensures
            r@ == track_text(self.title@, self.artist@, self.album@),
    {
        let mut r = String::new();
        r.append("Title: \"");
        r.append(self.title.as_str());
        r.append("\",  Artist: \"");
        r.append(self.artist.as_str());
        r.append("\",  Album: \"");
        r.append(self.album.as_str());
        r.append("\"");
        assert(r@ =~= track_text(self.title@, self.artist@, self.album@));
        r
    }
}

} // verus!
