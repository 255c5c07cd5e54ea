//! JSON values as the decoders read them.

use vstd::prelude::*;
use vstd::string::*;
use crate::text::same_text;

verus! {

/// A JSON value.
#[derive(Debug)]
pub enum Json {
    Null,
    Bool(bool),
    /// A number; its value where it is a whole number that fits in 64 bits
    /// without a sign.
    Number(Option<u64>),
    Text(String),
    List(Vec<Json>),
    /// The members of an object, each name once.
    Object(Vec<(String, Json)>),
}

/// `serde_json::Value`, the parser's own value. Nothing is known of what is
/// inside one: it is copied before anything reads it.
#[verifier::external_type_specification]
#[verifier::external_body]
pub struct ExValue(serde_json::Value);

/// The value that a text stands for as JSON, if it is JSON.
pub uninterp spec fn parsed_json(text: Seq<char>) -> Option<Json>;

/// Copies a `serde_json::Value` into a value of this library, variant by
/// variant; a number goes through `Number::as_u64`.
#[verifier::external_body]
fn json_of_value(value: &serde_json::Value) -> (r: Json) {
    match value {
        serde_json::Value::Null => Json::Null,
        serde_json::Value::Bool(b) => Json::Bool(*b),
        serde_json::Value::Number(n) => Json::Number(n.as_u64()),
        serde_json::Value::String(s) => Json::Text(s.clone()),
        serde_json::Value::Array(items) => Json::List(items.iter().map(json_of_value).collect()),
        serde_json::Value::Object(members) => Json::Object(
            members.iter().map(|(k, v)| (k.clone(), json_of_value(v))).collect(),
        ),
    }
}

/// Parses a text with `serde_json::from_str` into a `serde_json::Value` and
/// copies it. The result is `None` where the crate reports an error.
#[verifier::external_body]
pub(crate) fn parse_json(body: &str) -> (r: Option<Json>)
    ensures
        r == parsed_json(body@),
{
    match serde_json::from_str::<serde_json::Value>(body) {
        Ok(value) => Some(json_of_value(&value)),
        Err(_) => None,
    }
}

/// The first member of that name among the members of an object.
pub open spec fn field_of(fields: Seq<(String, Json)>, key: Seq<char>) -> Option<Json>
    decreases fields.len(),
{
    if fields.len() == 0 {
        None
    } else if fields[0].0@ == key {
        Some(fields[0].1)
    } else {
        field_of(fields.skip(1), key)
    }
}

/// The member of that name, where the value is an object that has one.
pub open spec fn member_of(j: Json, key: Seq<char>) -> Option<Json> {
    match j {
        Json::Object(fields) => field_of(fields@, key),
        _ => None,
    }
}

/// The member of that name, where it is a text.
pub open spec fn text_member_of(j: Json, key: Seq<char>) -> Option<Seq<char>> {
    match member_of(j, key) {
        Some(Json::Text(s)) => Some(s@),
        _ => None,
    }
}

/// The member of that name, where it is a whole number of 64 bits.
pub open spec fn number_member_of(j: Json, key: Seq<char>) -> Option<u64> {
    match member_of(j, key) {
        Some(Json::Number(Some(n))) => Some(n),
        _ => None,
    }
}

/// The member of that name, where it is a whole number that fits in `usize`.
pub open spec fn size_member_of(j: Json, key: Seq<char>) -> Option<usize> {
    match number_member_of(j, key) {
        Some(n) => if n <= usize::MAX {
            Some(n as usize)
        } else {
            None
        },
        None => None,
    }
}

/// The member of that name, where it is a boolean.
pub open spec fn flag_member_of(j: Json, key: Seq<char>) -> Option<bool> {
    match member_of(j, key) {
        Some(Json::Bool(b)) => Some(b),
        _ => None,
    }
}

/// Looks up a member of an object by name.
pub fn member<'a>(j: &'a Json, key: &str) -> (r: Option<&'a Json>)
    ensures
        match r {
            Some(found) => member_of(*j, key@) == Some(*found),
            None => member_of(*j, key@) is None,
        },
{
    match j {
        Json::Object(fields) => {
            let mut i: usize = 0;
            assert(fields@.skip(0) =~= fields@);
            while i < fields.len()
                invariant
                    i <= fields.len(),
                    member_of(*j, key@) == field_of(fields@, key@),
                    field_of(fields@, key@) == field_of(fields@.skip(i as int), key@),
                decreases fields.len() - i,
            {
                let ghost rest = fields@.skip(i as int);
                assert(rest.len() > 0 && rest[0] == fields@[i as int]);
                if same_text(fields[i].0.as_str(), key) {
                    let found = &fields[i].1;
                    assert(field_of(rest, key@) == Some(*found));
                    return Some(found);
                }
                assert(fields@.skip(i as int).skip(1) =~= fields@.skip(i + 1));
                i += 1;
            }
            None
        },
        _ => None,
    }
}

/// Reads a member that is a text.
pub fn text_member(j: &Json, key: &str) -> (r: Option<String>)
    ensures
        match r {
            Some(s) => text_member_of(*j, key@) == Some(s@),
            None => text_member_of(*j, key@) is None,
        },
{
    match member(j, key) {
        Some(Json::Text(s)) => Some(s.clone()),
        _ => None,
    }
}

/// Reads a member that is a whole number of 64 bits.
pub fn number_member(j: &Json, key: &str) -> (r: Option<u64>)
    ensures
        r == number_member_of(*j, key@),
{
    match member(j, key) {
        Some(Json::Number(Some(n))) => Some(*n),
        _ => None,
    }
}

/// Reads a member that is a whole number and fits in `usize`.
pub fn size_member(j: &Json, key: &str) -> (r: Option<usize>)
    ensures
        r == size_member_of(*j, key@),
{
    match number_member(j, key) {
        Some(n) => if n <= usize::MAX as u64 {
            Some(n as usize)
        } else {
            None
        },
        None => None,
    }
}

/// Reads a member that is a boolean.
pub fn flag_member(j: &Json, key: &str) -> (r: Option<bool>)
    ensures
        r == flag_member_of(*j, key@),
{
    match member(j, key) {
        Some(Json::Bool(b)) => Some(*b),
        _ => None,
    }
}

} // verus!
