use vstd::prelude::*;
use vstd::string::*;

verus! {

/// A parsed JSON document, as plain values.
///
/// A number is `Int` when it is an integer that fits in `i64`, and `Number` (as written)
/// otherwise. An object keeps its members in order; its keys are distinct.
#[derive(Debug)]
pub enum Json {
    Null,
    Bool(bool),
    Int(i64),
    Number(String),
    Str(String),
    Array(Vec<Json>),
    Object(Vec<(String, Json)>),
}

/// The value of the first member named `key`.
pub open spec fn member(members: Seq<(String, Json)>, key: Seq<char>) -> Option<Json>
    decreases members.len(),
{
    if members.len() == 0 {
        None
    } else if members[0].0@ == key {
        Some(members[0].1)
    } else {
        member(members.drop_first(), key)
    }
}

/// `json[key]`, where `json` is an object that has such a member.
pub open spec fn field(json: Option<Json>, key: Seq<char>) -> Option<Json> {
    match json {
        Some(Json::Object(members)) => member(members@, key),
        _ => None,
    }
}

/// `json[index]`, where `json` is an array that long.
pub open spec fn element(json: Option<Json>, index: int) -> Option<Json> {
    match json {
        Some(Json::Array(items)) => if 0 <= index < items@.len() {
            Some(items@[index])
        } else {
            None
        },
        _ => None,
    }
}

/// The text of `json`, where it is a string.
pub open spec fn text(json: Option<Json>) -> Option<Seq<char>> {
    match json {
        Some(Json::Str(s)) => Some(s@),
        _ => None,
    }
}

/// The items of `json`, where it is an array.
pub open spec fn items(json: Option<Json>) -> Option<Seq<Json>> {
    match json {
        Some(Json::Array(v)) => Some(v@),
        _ => None,
    }
}

/// Whether two strings hold the same characters.
pub fn str_eq(a: &str, b: &str) -> (r: bool)
    ensures
        r == (a@ == b@),
{
    let n = a.unicode_len();
    if n != b.unicode_len() {
        return false;
    }
    let mut i: usize = 0;
    while i < n
        invariant
            n == a@.len(),
            n == b@.len(),
            i <= n,
            forall|j: int| 0 <= j < i ==> a@[j] == b@[j],
        decreases n - i,
    {
        if a.get_char(i) != b.get_char(i) {
            return false;
        }
        i = i + 1;
    }
    assert(a@ =~= b@);
    true
}

impl Json {
    /// The value of the member named `key`, where this is an object that has one.
    pub fn get(&self, key: &str) -> (r: Option<&Json>)
        ensures
            r matches Some(v) ==> field(Some(*self), key@) == Some(*v),
            r is None ==> field(Some(*self), key@) is None,
    {
        match self {
            Json::Object(members) => {
                let mut i: usize = 0;
                assert(members@.subrange(0, members@.len() as int) =~= members@);
                assert(field(Some(*self), key@) == member(members@, key@));
                while i < members.len()
                    invariant
                        i <= members@.len(),
                        field(Some(*self), key@) == member(members@, key@),
                        member(members@, key@) == member(members@.subrange(i as int, members@.len() as int), key@),
                    decreases members.len() - i,
                {
                    let ghost rest = members@.subrange(i as int, members@.len() as int);
                    assert(rest.drop_first() =~= members@.subrange(i + 1, members@.len() as int));
                    assert(rest[0] == members@[i as int]);
                    if str_eq(members[i].0.as_str(), key) {
                        return Some(&members[i].1);
                    }
                    i = i + 1;
                }
                None
            },
            _ => None,
        }
    }

    /// The element at `index`, where this is an array that long.
    pub fn at(&self, index: usize) -> (r: Option<&Json>)
        ensures
            r matches Some(v) ==> element(Some(*self), index as int) == Some(*v),
            r is None ==> element(Some(*self), index as int) is None,
    {
        match self {
            Json::Array(items) => if index < items.len() {
                Some(&items[index])
            } else {
                None
            },
            _ => None,
        }
    }

    /// The text, where this is a string.
    pub fn as_str(&self) -> (r: Option<&str>)
        ensures
            r matches Some(s) ==> text(Some(*self)) == Some(s@),
            r is None ==> text(Some(*self)) is None,
    {
        match self {
            Json::Str(s) => Some(s.as_str()),
            _ => None,
        }
    }

    /// The items, where this is an array.
    pub fn as_array(&self) -> (r: Option<&Vec<Json>>)
        ensures
            r matches Some(v) ==> items(Some(*self)) == Some(v@),
            r is None ==> items(Some(*self)) is None,
    {
        match self {
            Json::Array(v) => Some(v),
            _ => None,
        }
    }
}

} // verus!
