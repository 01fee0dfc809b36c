//! JSON values as the protocol's messages are made of, and lookups in them.
//!
//! Text is turned into these values, and back, by a JSON parser and printer
//! outside the library; the mapping between values and messages is in
//! [`crate::wire`].

use vstd::prelude::*;

verus! {

/// A JSON value.
#[derive(Debug)]
pub enum Json {
    Null,
    Bool(bool),
    /// A non-negative integer that fits in 64 bits.
    UInt(u64),
    /// Any other number: negative, fractional or too large.
    OtherNumber,
    Str(String),
    Array(Vec<Json>),
    /// Members in the order in which they stand.
    Object(Vec<(String, Json)>),
}

/// The value of the first member named `key` at or after position `i`.
pub open spec fn member_from(members: Seq<(String, Json)>, key: Seq<char>, i: int) -> Option<Json>
    decreases members.len() - i,
{
    if i < 0 || i >= members.len() {
        None
    } else if members[i].0@ == key {
        Some(members[i].1)
    } else {
        member_from(members, key, i + 1)
    }
}

/// The value of the first member named `key`.
pub open spec fn member(members: Seq<(String, Json)>, key: Seq<char>) -> Option<Json> {
    member_from(members, key, 0)
}

/// A member name as a string of its own.
pub(crate) fn key(name: &str) -> (r: String)
    ensures
        r@ == name@,
{
    name.to_string()
}

/// Finds the value of the first member named `key`.
pub fn get_member<'a>(members: &'a Vec<(String, Json)>, key: &str) -> (r: Option<&'a Json>)
    ensures
        match r {
            Some(v) => member(members@, key@) == Some(*v),
            None => member(members@, key@) is None,
        },
{
    let k = key.to_string();
    let mut i: usize = 0;
    while i < members.len()
        invariant
            k@ == key@,
            i <= members@.len(),
            member(members@, key@) == member_from(members@, key@, i as int),
        decreases members@.len() - i,
    {
        if members[i].0 == k {
            return Some(&members[i].1);
        }
        i = i + 1;
    }
    None
}

} // verus!
