use vstd::prelude::*;

use crate::decimal::parsed_u64;
use crate::decimal::parse_u64;
use crate::json::{field, items, text, Json};
use crate::web_player::WebPlayerError;

verus! {

/// The synchronised lyrics of a track, in display order.
#[derive(Debug)]
pub struct Lyrics {
    pub lines: Vec<LyricLine>,
}

/// One lyric line and the offset at which it starts, in milliseconds.
#[derive(Debug)]
pub struct LyricLine {
    pub words: String,
    pub start_time: u64,
}

/// The words and start offset that a line object holds: `words` a string and `startTimeMs`
/// a string of decimal digits.
pub open spec fn line_of(j: Json) -> Option<(Seq<char>, u64)> {
    match (text(field(Some(j), "words"@)), text(field(Some(j), "startTimeMs"@))) {
        (Some(w), Some(t)) => match parsed_u64(t) {
            Some(ms) => Some((w, ms)),
            None => None,
        },
        _ => None,
    }
}

/// Whether every item is a well-formed line object.
pub open spec fn all_lines(js: Seq<Json>) -> bool {
    forall|i: int| 0 <= i < js.len() ==> (#[trigger] line_of(js[i])) is Some
}

/// The lines that a JSON array of line objects holds, where every item is well-formed.
pub open spec fn lines_of(json: Json) -> Option<Seq<(Seq<char>, u64)>> {
    match items(Some(json)) {
        Some(js) => if all_lines(js) {
            Some(Seq::new(js.len(), |i: int| line_of(js[i])->0))
        } else {
            None
        },
        None => None,
    }
}

/// The words and start offset of each line.
pub open spec fn line_view(l: LyricLine) -> (Seq<char>, u64) {
    (l.words@, l.start_time)
}

impl Lyrics {
    pub open spec fn spec_lines(&self) -> Seq<(Seq<char>, u64)> {
        self.lines@.map_values(|l: LyricLine| line_view(l))
    }

    /// Reads the lines from a JSON array of `{"words": .., "startTimeMs": ".."}` objects.
    pub fn from_json(json: &Json) -> (r: Result<Lyrics, WebPlayerError>)
        ensures
            r matches Ok(l) ==> lines_of(*json) == Some(l.spec_lines()),
            r matches Err(e) ==> lines_of(*json) is None && e is UnexpectedResponse,
    {
        let arr = match json.as_array() {
            Some(a) => a,
            None => return Err(WebPlayerError::UnexpectedResponse),
        };
        let mut lines: Vec<LyricLine> = Vec::new();
        let mut i: usize = 0;
        while i < arr.len()
            invariant
                items(Some(*json)) == Some(arr@),
                i <= arr@.len(),
                lines@.len() == i,
                forall|k: int| 0 <= k < i ==> (#[trigger] line_of(arr@[k])) == Some(line_view(lines@[k])),
            decreases arr.len() - i,
        {
            let item = &arr[i];
            let words = match item.get("words") {
                Some(w) => match w.as_str() {
                    Some(s) => s.to_owned(),
                    None => return Err(WebPlayerError::UnexpectedResponse),
                },
                None => return Err(WebPlayerError::UnexpectedResponse),
            };
            let start_time = match item.get("startTimeMs") {
                Some(t) => match t.as_str() {
                    Some(s) => match parse_u64(s) {
                        Some(v) => v,
                        None => return Err(WebPlayerError::UnexpectedResponse),
                    },
                    None => return Err(WebPlayerError::UnexpectedResponse),
                },
                None => return Err(WebPlayerError::UnexpectedResponse),
            };
            let line = LyricLine { words, start_time };
            assert(line_of(arr@[i as int]) == Some(line_view(line)));
            lines.push(line);
            i = i + 1;
        }
        let r = Lyrics { lines };
        assert(r.spec_lines() =~= Seq::new(arr@.len(), |k: int| line_of(arr@[k])->0));
        Ok(r)
    }
}

} // verus!
