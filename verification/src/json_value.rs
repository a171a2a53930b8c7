//! JSON documents as the library reads them, parsed by `serde_json`.

use vstd::prelude::*;

use crate::text::str_equal;

verus! {

#[verifier::external_type_specification]
#[verifier::external_body]
pub struct ExJsonValue(serde_json::Value);

#[verifier::external_type_specification]
#[verifier::external_body]
pub struct ExJsonError(serde_json::Error);

/// A JSON value as the library reads it: strings, arrays and objects (an object's members in
/// the order `serde_json` keeps them); null, booleans and numbers are `Other`.
#[derive(Debug)]
pub enum JsonValue {
    Text(String),
    Array(Vec<JsonValue>),
    Object(Vec<(String, JsonValue)>),
    Other,
}

/// The value that `serde_json::from_str::<serde_json::Value>` parses from `text`, or `None`
/// when it rejects the text.
pub uninterp spec fn json_document(text: Seq<char>) -> Option<JsonValue>;

/// The value that `serde_json` parsed, in this library's terms.
#[verifier::external_body]
fn json_model(value: serde_json::Value) -> JsonValue {
    match value {
        serde_json::Value::String(text) => JsonValue::Text(text),
        serde_json::Value::Array(items) => JsonValue::Array(items.into_iter().map(json_model).collect()),
        serde_json::Value::Object(members) => JsonValue::Object(
            members.into_iter().map(|(key, item)| (key, json_model(item))).collect(),
        ),
        _ => JsonValue::Other,
    }
}

/// Parses a JSON document with `serde_json::from_str::<serde_json::Value>`. The contract
/// names the result: an error exactly when the parser rejects the text, otherwise the parsed
/// value. What the name holds on given text is left to `serde_json`.
#[verifier::external_body]
pub fn parse_json(text: &str) -> (res: Result<JsonValue, serde_json::Error>)
    ensures
        res is Err <==> json_document(text@) is None,
        res matches Ok(value) ==> json_document(text@) == Some(value),
{
    match serde_json::from_str::<serde_json::Value>(text) {
        Ok(value) => Ok(json_model(value)),
        Err(error) => Err(error),
    }
}

/// `k` is the first member of `members` named `key`.
pub open spec fn first_member(members: Seq<(String, JsonValue)>, key: Seq<char>, k: int) -> bool {
    &&& 0 <= k < members.len()
    &&& members[k].0@ == key
    &&& forall|j: int| 0 <= j < k ==> (#[trigger] members[j]).0@ != key
}

/// What indexing `value` by `key` finds: the member's value in an object, nothing otherwise
/// (where `serde_json`'s indexing gives null).
pub open spec fn json_get(value: JsonValue, key: Seq<char>) -> Option<JsonValue> {
    match value {
        JsonValue::Object(members) => if exists|k: int| first_member(members@, key, k) {
            Some(members@[choose|k: int| first_member(members@, key, k)].1)
        } else {
            None
        },
        _ => None,
    }
}

/// The string held under `key` in `value`, if there is one.
pub open spec fn json_field_str(value: JsonValue, key: Seq<char>) -> Option<Seq<char>> {
    match json_get(value, key) {
        Some(JsonValue::Text(text)) => Some(text@),
        _ => None,
    }
}

/// The position of the first member of `members` named `key`, if any.
pub fn find_member(members: &Vec<(String, JsonValue)>, key: &str) -> (res: Option<usize>)
    ensures
        res matches Some(k) ==> first_member(members@, key@, k as int),
        res is None ==> !exists|k: int| first_member(members@, key@, k),
{
    let mut i: usize = 0;
    while i < members.len()
        invariant
            i <= members@.len(),
            forall|j: int| 0 <= j < i ==> (#[trigger] members@[j]).0@ != key@,
        decreases members.len() - i,
    {
        if str_equal(members[i].0.as_str(), key) {
            return Some(i);
        }
        i = i + 1;
    }
    proof {
        if exists|k: int| first_member(members@, key@, k) {
            let k = choose|k: int| first_member(members@, key@, k);
            assert(members@[k].0@ == key@);
        }
    }
    None
}

/// What indexing `value` by `key` finds: the member's value in an object, nothing otherwise.
pub fn get<'a>(value: &'a JsonValue, key: &str) -> (res: Option<&'a JsonValue>)
    ensures
        res is None <==> json_get(*value, key@) is None,
        res matches Some(found) ==> json_get(*value, key@) == Some(*found),
{
    match value {
        JsonValue::Object(members) => match find_member(members, key) {
            Some(i) => {
                proof {
                    let c = choose|c: int| first_member(members@, key@, c);
                    assert(first_member(members@, key@, c));
                    if c < i {
                        assert(members@[c].0@ != key@);
                    } else if i < c {
                        assert(members@[i as int].0@ != key@);
                    }
                }
                Some(&members[i].1)
            },
            None => None,
        },
        _ => None,
    }
}

/// The string held under `key` in `value`, if there is one.
pub fn field_text(value: &JsonValue, key: &str) -> (res: Option<String>)
    ensures
        res is None <==> json_field_str(*value, key@) is None,
        res matches Some(text) ==> json_field_str(*value, key@) == Some(text@),
{
    match get(value, key) {
        Some(JsonValue::Text(text)) => Some(text.clone()),
        _ => None,
    }
}

} // verus!
