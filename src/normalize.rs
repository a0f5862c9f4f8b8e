//! Extraction of the reply text from a chat-completion response body whose
//! shape is not known in advance: an ordered chain of shape matchers.
use vstd::prelude::*;
use crate::json::{
    deref_opt, element, get_element, get_member, get_text, member, member_of, text_of, JsonValue,
};

verus! {

/// The text of a message object `{"content": "..."}`.
pub open spec fn message_text(v: JsonValue) -> Option<Seq<char>> {
    text_of(member(v, "content"@))
}

/// The text of a choice object `{"message": {"content": "..."}}`.
pub open spec fn choice_text(v: JsonValue) -> Option<Seq<char>> {
    match member(v, "message"@) {
        Some(m) => message_text(m),
        None => None,
    }
}

/// Whether every item is a well-formed choice.
pub open spec fn all_choices(items: Seq<JsonValue>) -> bool {
    forall|i: int| 0 <= i < items.len() ==> (#[trigger] choice_text(items[i])) is Some
}

/// The strict shape: a `choices` list of well-formed choices; the text of
/// the first one.
pub open spec fn strict_text(v: JsonValue) -> Option<Seq<char>> {
    match member(v, "choices"@) {
        Some(JsonValue::Array(items)) => if items@.len() > 0 && all_choices(items@) {
            choice_text(items@[0])
        } else {
            None
        },
        _ => None,
    }
}

/// Whether an optional field is absent or null.
pub open spec fn is_unset(f: Option<JsonValue>) -> bool {
    f is None || f == Some(JsonValue::Null)
}

/// The generic shape: an object whose `choices`, `message` and `content`
/// fields are each absent, null, or well-formed.
pub open spec fn generic_shape(v: JsonValue) -> bool {
    &&& v is Object
    &&& match member(v, "choices"@) {
        Some(JsonValue::Array(items)) => all_choices(items@),
        f => is_unset(f),
    }
    &&& match member(v, "message"@) {
        Some(m) => is_unset(Some(m)) || message_text(m) is Some,
        None => true,
    }
    &&& match member(v, "content"@) {
        Some(JsonValue::Str(_)) => true,
        f => is_unset(f),
    }
}

/// The text the generic shape yields: the last choice, else the message,
/// else the top-level content.
pub open spec fn generic_text(v: JsonValue) -> Option<Seq<char>> {
    if !generic_shape(v) {
        None
    } else {
        match member(v, "choices"@) {
            Some(JsonValue::Array(items)) if items@.len() > 0 => choice_text(items@.last()),
            _ => match member(v, "message"@) {
                Some(m) if !is_unset(Some(m)) => message_text(m),
                _ => text_of(member(v, "content"@)),
            },
        }
    }
}

/// Probing by path, in order: `choices[0].message.content`,
/// `message.content`, `content`, `result`.
pub open spec fn probed_text(v: JsonValue) -> Option<Seq<char>> {
    let first = member_of(
        match member(v, "choices"@) {
            Some(c) => element(c, 0),
            None => None,
        },
        "message"@,
    );
    if text_of(member_of(first, "content"@)) is Some {
        text_of(member_of(first, "content"@))
    } else if text_of(member_of(member(v, "message"@), "content"@)) is Some {
        text_of(member_of(member(v, "message"@), "content"@))
    } else if text_of(member(v, "content"@)) is Some {
        text_of(member(v, "content"@))
    } else {
        text_of(member(v, "result"@))
    }
}

/// The reply text of a parsed response: the first shape in the chain that
/// yields one.
pub open spec fn reply_text(v: JsonValue) -> Option<Seq<char>> {
    if strict_text(v) is Some {
        strict_text(v)
    } else if generic_text(v) is Some {
        generic_text(v)
    } else {
        probed_text(v)
    }
}

/// Returns the text of a message object.
fn get_message_text(v: &JsonValue) -> (r: Option<&str>)
    ensures
        match r {
            Some(t) => message_text(*v) == Some(t@),
            None => message_text(*v) is None,
        },
{
    get_text(get_member(v, "content"))
}

/// Returns the text of a choice object.
fn get_choice_text(v: &JsonValue) -> (r: Option<&str>)
    ensures
        match r {
            Some(t) => choice_text(*v) == Some(t@),
            None => choice_text(*v) is None,
        },
{
    match get_member(v, "message") {
        Some(m) => get_message_text(m),
        None => None,
    }
}

/// Whether every item is a well-formed choice.
fn check_all_choices(items: &Vec<JsonValue>) -> (r: bool)
    ensures
        r == all_choices(items@),
{
    let mut i: usize = 0;
    while i < items.len()
        invariant
            0 <= i <= items@.len(),
            forall|j: int| 0 <= j < i ==> (#[trigger] choice_text(items@[j])) is Some,
        decreases items.len() - i,
    {
        if get_choice_text(&items[i]).is_none() {
            return false;
        }
        i = i + 1;
    }
    true
}

/// Returns the text of the strict shape.
pub fn match_strict(v: &JsonValue) -> (r: Option<&str>)
    ensures
        match r {
            Some(t) => strict_text(*v) == Some(t@),
            None => strict_text(*v) is None,
        },
{
    match get_member(v, "choices") {
        Some(JsonValue::Array(items)) => {
            if items.len() > 0 && check_all_choices(items) {
                get_choice_text(&items[0])
            } else {
                None
            }
        },
        _ => None,
    }
}

/// Whether an optional field is absent or null.
fn check_unset(f: Option<&JsonValue>) -> (r: bool)
    ensures
        r == is_unset(deref_opt(f)),
{
    match f {
        None => true,
        Some(JsonValue::Null) => true,
        _ => false,
    }
}

/// Whether `v` has the generic shape.
fn check_generic_shape(v: &JsonValue) -> (r: bool)
    ensures
        r == generic_shape(*v),
{
    match v {
        JsonValue::Object(_) => {},
        _ => return false,
    }
    let choices_ok = match get_member(v, "choices") {
        Some(JsonValue::Array(items)) => check_all_choices(items),
        f => check_unset(f),
    };
    let message_ok = match get_member(v, "message") {
        Some(m) => check_unset(Some(m)) || get_message_text(m).is_some(),
        None => true,
    };
    let content_ok = match get_member(v, "content") {
        Some(JsonValue::Str(_)) => true,
        f => check_unset(f),
    };
    choices_ok && message_ok && content_ok
}

/// Returns the text of the generic shape.
pub fn match_generic(v: &JsonValue) -> (r: Option<&str>)
    ensures
        match r {
            Some(t) => generic_text(*v) == Some(t@),
            None => generic_text(*v) is None,
        },
{
    if !check_generic_shape(v) {
        return None;
    }
    match get_member(v, "choices") {
        Some(JsonValue::Array(items)) if items.len() > 0 => {
            return get_choice_text(&items[items.len() - 1]);
        },
        _ => {},
    }
    match get_member(v, "message") {
        Some(m) if !check_unset(Some(m)) => {
            return get_message_text(m);
        },
        _ => {},
    }
    get_text(get_member(v, "content"))
}

/// Returns the text found by probing paths.
pub fn match_probed(v: &JsonValue) -> (r: Option<&str>)
    ensures
        match r {
            Some(t) => probed_text(*v) == Some(t@),
            None => probed_text(*v) is None,
        },
{
    let first = match get_member(v, "choices") {
        Some(c) => match get_element(c, 0) {
            Some(e) => get_member(e, "message"),
            None => None,
        },
        None => None,
    };
    let t1 = match first {
        Some(m) => get_text(get_member(m, "content")),
        None => None,
    };
    if t1.is_some() {
        return t1;
    }
    let t2 = match get_member(v, "message") {
        Some(m) => get_text(get_member(m, "content")),
        None => None,
    };
    if t2.is_some() {
        return t2;
    }
    let t3 = get_text(get_member(v, "content"));
    if t3.is_some() {
        return t3;
    }
    get_text(get_member(v, "result"))
}

/// Returns the reply text of a parsed response, trying the strict shape,
/// the generic shape, then probing by path.
pub fn extract_reply(v: &JsonValue) -> (r: Option<&str>)
    ensures
        match r {
            Some(t) => reply_text(*v) == Some(t@),
            None => reply_text(*v) is None,
        },
{
    let strict = match_strict(v);
    if strict.is_some() {
        return strict;
    }
    let generic = match_generic(v);
    if generic.is_some() {
        return generic;
    }
    match_probed(v)
}

/// A `choices` list whose only choice has message text `t` yields `t`.
pub proof fn lemma_choices_shape(v: JsonValue, items: Vec<JsonValue>, t: Seq<char>)
    requires
        member(v, "choices"@) == Some(JsonValue::Array(items)),
        items@.len() == 1,
        choice_text(items@[0]) == Some(t),
    ensures
        reply_text(v) == Some(t),
{
}

/// An object with no `choices` and a `message` whose text is `t` yields `t`.
pub proof fn lemma_message_shape(v: JsonValue, m: JsonValue, t: Seq<char>)
    requires
        v is Object,
        member(v, "choices"@) is None,
        member(v, "message"@) == Some(m),
        message_text(m) == Some(t),
        member(v, "content"@) is None,
    ensures
        reply_text(v) == Some(t),
{
}

/// An object with no `choices` or `message` and a `content` text `t` yields
/// `t`.
pub proof fn lemma_content_shape(v: JsonValue, t: Seq<char>)
    requires
        v is Object,
        member(v, "choices"@) is None,
        member(v, "message"@) is None,
        text_of(member(v, "content"@)) == Some(t),
    ensures
        reply_text(v) == Some(t),
{
}

/// An object with none of `choices`, `message`, `content` and `result`
/// yields nothing.
pub proof fn lemma_unknown_shape(v: JsonValue)
    requires
        member(v, "choices"@) is None,
        member(v, "message"@) is None,
        member(v, "content"@) is None,
        member(v, "result"@) is None,
    ensures
        reply_text(v) is None,
{
}

} // verus!
