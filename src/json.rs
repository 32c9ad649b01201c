//! JSON values as plain data, parsed by serde_json.
use vstd::prelude::*;

verus! {

/// A JSON value. Numbers keep their decimal text; object members keep the
/// order in which serde_json hands them out, each key once.
#[derive(Debug)]
pub enum Json {
    Null,
    Bool(bool),
    Number(String),
    Text(String),
    Array(Vec<Json>),
    Object(Vec<(String, Json)>),
}

/// The value that serde_json reads from a whole JSON text, or nothing when
/// the text is not JSON.
pub uninterp spec fn json_of(text: Seq<char>) -> Option<Json>;

#[verifier::external_type_specification]
#[verifier::external_body]
pub struct ExValue(serde_json::Value);

/// Relies on the variants of serde_json::Value: moves each one's data into
/// the same variant of `Json`.
#[verifier::external_body]
fn json_from_value(v: serde_json::Value) -> Json {
    match v {
        serde_json::Value::Null => Json::Null,
        serde_json::Value::Bool(b) => Json::Bool(b),
        serde_json::Value::Number(n) => Json::Number(n.to_string()),
        serde_json::Value::String(s) => Json::Text(s),
        serde_json::Value::Array(a) => Json::Array(a.into_iter().map(json_from_value).collect()),
        serde_json::Value::Object(m) => Json::Object(m.into_iter().map(|(k, x)| (k, json_from_value(x))).collect()),
    }
}

/// Relies on serde_json::from_str into serde_json::Value: parses a whole
/// JSON text; the outcome depends on the text alone.
#[verifier::external_body]
pub(crate) fn parse_json(text: &str) -> (r: Option<Json>)
    ensures
        r == json_of(text@),
{
    serde_json::from_str::<serde_json::Value>(text).ok().map(json_from_value)
}

/// The text of a JSON string.
pub open spec fn text_of(v: Json) -> Option<Seq<char>> {
    match v {
        Json::Text(s) => Some(s@),
        _ => None,
    }
}

/// The value under the first member named `key` among `entries`.
pub open spec fn find_member(entries: Seq<(String, Json)>, key: Seq<char>) -> Option<Json>
    decreases entries.len(),
{
    if entries.len() == 0 {
        None
    } else if entries[0].0@ == key {
        Some(entries[0].1)
    } else {
        find_member(entries.drop_first(), key)
    }
}

/// The member `key` of a JSON object; nothing for other values.
pub open spec fn member_of(v: Json, key: Seq<char>) -> Option<Json> {
    match v {
        Json::Object(entries) => find_member(entries@, key),
        _ => None,
    }
}

/// The text of the string member `key` of a JSON object.
pub open spec fn text_member_of(v: Json, key: Seq<char>) -> Option<Seq<char>> {
    match member_of(v, key) {
        Some(x) => text_of(x),
        None => None,
    }
}

/// The member `key` of a JSON object.
pub fn member<'a>(v: &'a Json, key: &str) -> (r: Option<&'a Json>)
    ensures
        match r {
            Some(x) => member_of(*v, key@) == Some(*x),
            None => member_of(*v, key@) is None,
        },
{
    match v {
        Json::Object(entries) => {
            let k = key.to_owned();
            let n = entries.len();
            assert(entries@.subrange(0, n as int) =~= entries@);
            for i in 0..n
                invariant
                    n == entries@.len(),
                    k@ == key@,
                    member_of(*v, key@) == find_member(entries@, key@),
                    find_member(entries@, key@) == find_member(entries@.subrange(i as int, n as int), key@),
            {
                assert(entries@.subrange(i as int, n as int).drop_first() =~= entries@.subrange(i + 1, n as int));
                assert(entries@.subrange(i as int, n as int)[0] == entries@[i as int]);
                if entries[i].0 == k {
                    return Some(&entries[i].1);
                }
            }
            assert(entries@.subrange(n as int, n as int).len() == 0);
            None
        },
        _ => None,
    }
}

/// The text of the string member `key` of a JSON object.
pub fn text_member(v: &Json, key: &str) -> (r: Option<String>)
    ensures
        match r {
            Some(s) => text_member_of(*v, key@) == Some(s@),
            None => text_member_of(*v, key@) is None,
        },
{
    match member(v, key) {
        Some(Json::Text(s)) => Some(s.clone()),
        _ => None,
    }
}

} // verus!
