//! A plain tree for parsed JSON documents, and lookups over it.
use vstd::prelude::*;
use crate::text::str_eq;

verus! {

/// A parsed JSON value. Numbers keep their textual form; object members keep
/// the order in which the parser handed them over.
#[derive(Debug)]
pub enum JsonValue {
    Null,
    Bool(bool),
    Number(String),
    Str(String),
    Array(Vec<JsonValue>),
    Object(Vec<(String, JsonValue)>),
}

/// What `serde_json` makes of a text: `None` where the text is not JSON.
pub uninterp spec fn json_parse(text: Seq<char>) -> Option<JsonValue>;

/// Relies on `serde_json::from_str::<serde_json::Value>`: it parses the text
/// as one JSON document, and the result depends on the text alone.
#[verifier::external_body]
pub(crate) fn parse_json(text: &str) -> (r: Option<JsonValue>)
    ensures
        r == json_parse(text@),
{
    serde_json::from_str::<serde_json::Value>(text).ok().map(|v| tree_of(&v))
}

/// The parser's value type, carried through opaquely.
#[verifier::external_type_specification]
#[verifier::external_body]
pub struct ExJsonValue(serde_json::Value);

/// Carries a `serde_json::Value` over into a `JsonValue`, node for node.
#[verifier::external_body]
fn tree_of(v: &serde_json::Value) -> JsonValue {
    match v {
        serde_json::Value::Null => JsonValue::Null,
        serde_json::Value::Bool(b) => JsonValue::Bool(*b),
        serde_json::Value::Number(n) => JsonValue::Number(n.to_string()),
        serde_json::Value::String(s) => JsonValue::Str(s.clone()),
        serde_json::Value::Array(a) => JsonValue::Array(a.iter().map(tree_of).collect()),
        serde_json::Value::Object(o) => {
            JsonValue::Object(o.iter().map(|(k, x)| (k.clone(), tree_of(x))).collect())
        },
    }
}

/// The value of the first member named `key` among `members`.
pub open spec fn find_member(members: Seq<(String, JsonValue)>, key: Seq<char>) -> Option<
    JsonValue,
>
    decreases members.len(),
{
    if members.len() == 0 {
        None
    } else if members[0].0@ == key {
        Some(members[0].1)
    } else {
        find_member(members.drop_first(), key)
    }
}

/// The value of the member named `key`, if `v` is an object that has one.
pub open spec fn member(v: JsonValue, key: Seq<char>) -> Option<JsonValue> {
    match v {
        JsonValue::Object(members) => find_member(members@, key),
        _ => None,
    }
}

/// The element at `i`, if `v` is an array that long.
pub open spec fn element(v: JsonValue, i: int) -> Option<JsonValue> {
    match v {
        JsonValue::Array(items) => if 0 <= i < items@.len() {
            Some(items@[i])
        } else {
            None
        },
        _ => None,
    }
}

/// The text of `v`, if it is a string.
pub open spec fn text_of(v: Option<JsonValue>) -> Option<Seq<char>> {
    match v {
        Some(JsonValue::Str(s)) => Some(s@),
        _ => None,
    }
}

/// Looks up the member named `key` of an object.
pub fn get_member<'a>(v: &'a JsonValue, key: &str) -> (r: Option<&'a JsonValue>)
    ensures
        deref_opt(r) == member(*v, key@),
{
    match v {
        JsonValue::Object(members) => {
            let mut i: usize = 0;
            assert(members@.subrange(0, members@.len() as int) =~= members@);
            while i < members.len()
                invariant
                    0 <= i <= members@.len(),
                    member(*v, key@) == find_member(members@.subrange(i as int, members@.len() as int), key@),
                decreases members.len() - i,
            {
                proof {
                    let rest = members@.subrange(i as int, members@.len() as int);
                    assert(rest.drop_first() =~= members@.subrange(i + 1, members@.len() as int));
                }
                if str_eq(members[i].0.as_str(), key) {
                    assert(find_member(members@.subrange(i as int, members@.len() as int), key@)
                        == Some(members@[i as int].1));
                    return Some(&members[i].1);
                }
                i = i + 1;
            }
            None
        },
        _ => None,
    }
}

/// The member named `key` of an optional value.
pub open spec fn member_of(v: Option<JsonValue>, key: Seq<char>) -> Option<JsonValue> {
    match v {
        Some(x) => member(x, key),
        None => None,
    }
}

/// Returns the element at `i` of an array.
pub fn get_element(v: &JsonValue, i: usize) -> (r: Option<&JsonValue>)
    ensures
        deref_opt(r) == element(*v, i as int),
{
    match v {
        JsonValue::Array(items) => if i < items.len() {
            Some(&items[i])
        } else {
            None
        },
        _ => None,
    }
}

/// The value an optional reference points at.
pub open spec fn deref_opt(v: Option<&JsonValue>) -> Option<JsonValue> {
    match v {
        Some(x) => Some(*x),
        None => None,
    }
}

/// Returns the text of a string value.
pub fn get_text(v: Option<&JsonValue>) -> (r: Option<&str>)
    ensures
        match r {
            Some(t) => text_of(deref_opt(v)) == Some(t@),
            None => text_of(deref_opt(v)) is None,
        },
{
    match v {
        Some(JsonValue::Str(s)) => Some(s.as_str()),
        _ => None,
    }
}

} // verus!
