//! JSON values as the JSON-RPC messages carry them.

use vstd::prelude::*;

verus! {

/// A JSON value.
///
/// A number keeps the decimal text that the document gave for it. An
/// object is a list of members; the lookups here take the first member of
/// a name. (Objects read through `serde_json` without its `preserve_order`
/// feature come sorted by name, with one member per name, the last given.)
#[derive(Debug, PartialEq)]
pub enum JsonValue {
    Null,
    Bool(bool),
    Number(String),
    String(String),
    Array(Vec<JsonValue>),
    Object(Vec<(String, JsonValue)>),
}

/// Whether `members` has a member named `key`.
pub open spec fn has_member(members: Seq<(String, JsonValue)>, key: Seq<char>) -> bool {
    exists|i: int| 0 <= i < members.len() && (#[trigger] members[i]).0@ == key
}

/// Whether `i` is the position of the first member of `members` named `key`.
pub open spec fn is_first_member(members: Seq<(String, JsonValue)>, key: Seq<char>, i: int) -> bool {
    &&& 0 <= i < members.len()
    &&& members[i].0@ == key
    &&& forall|j: int| 0 <= j < i ==> (#[trigger] members[j]).0@ != key
}

/// Finds the position of the first member of `members` named `key`.
pub fn find_member(members: &Vec<(String, JsonValue)>, key: &String) -> (r: Option<usize>)
    ensures
        match r {
            Some(i) => is_first_member(members@, key@, i as int),
            None => !has_member(members@, key@),
        },
{
    let mut i: usize = 0;
    while i < members.len()
        invariant
            i <= members.len(),
            forall|j: int| 0 <= j < i ==> (#[trigger] members@[j]).0@ != key@,
        decreases members.len() - i,
    {
        if members[i].0 == *key {
            return Some(i);
        }
        i = i + 1;
    }
    None
}

} // verus!
