//! A plain model of a parsed JSON document, and lookups in it.
use vstd::prelude::*;

verus! {

/// A parsed JSON value. Numbers keep the text they were written with; an
/// object keeps its members in document order.
#[derive(Debug)]
pub enum Json {
    Null,
    Bool(bool),
    Number(String),
    Text(String),
    Array(Vec<Json>),
    Object(Vec<(String, Json)>),
}

/// Whether two texts are the same sequence of characters.
pub fn same_text(a: &String, b: &str) -> (r: bool)
    ensures
        r == (a@ == b@),
{
    let other = b.to_owned();
    *a == other
}

/// The value of the first member named `key` among `members`.
pub open spec fn member(members: Seq<(String, Json)>, key: Seq<char>) -> Option<Json>
    decreases members.len(),
{
    if members.len() == 0 {
        None
    } else if members[0].0@ == key {
        Some(members[0].1)
    } else {
        member(members.drop_first(), key)
    }
}

/// The member `key` of an object; `None` for a missing member or a value
/// that is not an object.
pub open spec fn field(v: Json, key: Seq<char>) -> Option<Json> {
    match v {
        Json::Object(members) => member(members@, key),
        _ => None,
    }
}

/// The element at `index` of an array; `None` past its end or for a value
/// that is not an array.
pub open spec fn element(v: Json, index: int) -> Option<Json> {
    match v {
        Json::Array(items) => if 0 <= index < items@.len() {
            Some(items@[index])
        } else {
            None
        },
        _ => None,
    }
}

/// `field` applied to a value that may already be missing.
pub open spec fn then_field(v: Option<Json>, key: Seq<char>) -> Option<Json> {
    match v {
        Some(inner) => field(inner, key),
        None => None,
    }
}

impl Json {
    /// Looks up the member `key` of an object.
    pub fn get(&self, key: &str) -> (r: Option<&Json>)
        ensures
            r matches Some(found) ==> field(*self, key@) == Some(*found),
            r is None ==> field(*self, key@) is None,
    {
        match self {
            Json::Object(members) => {
                let mut i: usize = 0;
                assert(members@.subrange(0, members@.len() as int) =~= members@);
                while i < members.len()
                    invariant
                        0 <= i <= members@.len(),
                        *self == Json::Object(*members),
                        member(members@, key@) == member(members@.subrange(i as int, members@.len() as int), key@),
                    decreases members@.len() - i,
                {
                    assert(members@.subrange(i as int, members@.len() as int).drop_first()
                        =~= members@.subrange(i as int + 1, members@.len() as int));
                    if same_text(&members[i].0, key) {
                        assert(members@.subrange(i as int, members@.len() as int)[0] == members@[i as int]);
                        return Some(&members[i].1);
                    }
                    i = i + 1;
                }
                None
            },
            _ => None,
        }
    }

    /// The element at `index` of an array.
    pub fn at(&self, index: usize) -> (r: Option<&Json>)
        ensures
            r matches Some(found) ==> element(*self, index as int) == Some(*found),
            r is None ==> element(*self, index as int) is None,
    {
        match self {
            Json::Array(items) => if index < items.len() {
                Some(&items[index])
            } else {
                None
            },
            _ => None,
        }
    }
}

} // verus!
