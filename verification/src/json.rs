//! JSON documents as plain values: parsing text with `serde_json`, and
//! reading members, strings and arrays out of the result.

use vstd::prelude::*;
use crate::text::{decimal, owned, spec_decimal};

verus! {

/// A JSON value. A number is kept as the text `serde_json` prints for it; an
/// object keeps its members in the order `serde_json` lists them (sorted by
/// key), each key once.
#[derive(Debug, PartialEq)]
pub enum JsonValue {
    Null,
    Bool(bool),
    Number(String),
    Str(String),
    Array(Vec<JsonValue>),
    Object(Vec<(String, JsonValue)>),
}

#[verifier::external_type_specification]
#[verifier::external_body]
pub struct ExSerdeJsonValue(serde_json::Value);

/// The value that `serde_json` reads from `text`, if the text is JSON.
pub uninterp spec fn spec_parse_json(text: Seq<char>) -> Option<JsonValue>;

/// `serde_json::from_str::<serde_json::Value>(text)`, converted one for one
/// into a `JsonValue`; `None` where `serde_json` refuses the text. Which
/// texts are JSON and what they hold is named (`spec_parse_json`), not
/// stated here.
#[verifier::external_body]
pub fn parse_json(text: &str) -> (r: Option<JsonValue>)
    ensures
        r == spec_parse_json(text@),
{
    serde_json::from_str::<serde_json::Value>(text).ok().map(json_value_of)
}

/// The `JsonValue` of a `serde_json::Value`, variant for variant, with each
/// array element and object member converted the same way in order.
#[verifier::external_body]
fn json_value_of(v: serde_json::Value) -> JsonValue {
    match v {
        serde_json::Value::Null => JsonValue::Null,
        serde_json::Value::Bool(b) => JsonValue::Bool(b),
        serde_json::Value::Number(n) => JsonValue::Number(n.to_string()),
        serde_json::Value::String(s) => JsonValue::Str(s),
        serde_json::Value::Array(a) => JsonValue::Array(a.into_iter().map(json_value_of).collect()),
        serde_json::Value::Object(m) => JsonValue::Object(
            m.into_iter().map(|(k, v)| (k, json_value_of(v))).collect(),
        ),
    }
}

/// The value of the first of `members` whose key is `key`.
pub open spec fn spec_member(members: Seq<(String, JsonValue)>, key: Seq<char>) -> Option<JsonValue>
    decreases members.len(),
{
    if members.len() == 0 {
        None
    } else if members[0].0@ == key {
        Some(members[0].1)
    } else {
        spec_member(members.drop_first(), key)
    }
}

/// Member `key` of `v` when `v` is an object (`serde_json`'s `get` with a
/// key); nothing for any other value.
pub open spec fn spec_get(v: JsonValue, key: Seq<char>) -> Option<JsonValue> {
    match v {
        JsonValue::Object(members) => spec_member(members@, key),
        _ => None,
    }
}

/// Member `key` of a value that may be missing. A chain of these reads a
/// JSON pointer made of member names, such as `/HostConfig/Binds`.
pub open spec fn spec_get_in(v: Option<JsonValue>, key: Seq<char>) -> Option<JsonValue> {
    match v {
        Some(w) => spec_get(w, key),
        None => None,
    }
}

/// What the JSON pointer token of the number `i` reads from a value that may
/// be missing: element `i` of an array, member `i` (written in decimal) of an
/// object; nothing for any other value.
pub open spec fn spec_element_in(v: Option<JsonValue>, i: nat) -> Option<JsonValue> {
    match v {
        Some(JsonValue::Array(a)) => if i < a@.len() {
            Some(a@[i as int])
        } else {
            None
        },
        Some(JsonValue::Object(members)) => spec_member(members@, spec_decimal(i)),
        _ => None,
    }
}

/// The string a value holds, when it is a string (`as_str`).
pub open spec fn spec_text(v: Option<JsonValue>) -> Option<String> {
    match v {
        Some(JsonValue::Str(s)) => Some(s),
        _ => None,
    }
}

/// The elements of an array, each as the string it holds or `None`; no
/// element when the value is missing or not an array.
pub open spec fn spec_strings(v: Option<JsonValue>) -> Seq<Option<String>> {
    match v {
        Some(JsonValue::Array(a)) => a@.map_values(|e: JsonValue| spec_text(Some(e))),
        _ => Seq::empty(),
    }
}

/// Member `key` of `v`.
pub fn get<'a>(v: &'a JsonValue, key: &str) -> (r: Option<&'a JsonValue>)
    ensures
        match spec_get(*v, key@) {
            Some(w) => r matches Some(x) && *x == w,
            None => r is None,
        },
{
    match v {
        JsonValue::Object(members) => {
            let k = owned(key);
            let mut i: usize = 0;
            assert(members@.skip(0) =~= members@);
            while i < members.len()
                invariant
                    k@ == key@,
                    spec_get(*v, key@) == spec_member(members@, key@),
                    i <= members@.len(),
                    spec_member(members@, key@) == spec_member(members@.skip(i as int), key@),
                decreases members@.len() - i,
            {
                let ghost rest = members@.skip(i as int);
                assert(rest[0] == members@[i as int]);
                if members[i].0 == k {
                    assert(rest.len() > 0 && rest[0].0@ == key@);
                    assert(spec_member(rest, key@) == Some(rest[0].1));
                    return Some(&members[i].1);
                }
                assert(rest.drop_first() =~= members@.skip(i + 1));
                i = i + 1;
            }
            None
        },
        _ => None,
    }
}

/// Member `key` of a value that may be missing.
pub fn get_in<'a>(v: Option<&'a JsonValue>, key: &str) -> (r: Option<&'a JsonValue>)
    ensures
        match v {
            Some(w) => match spec_get(*w, key@) {
                Some(x) => r matches Some(y) && *y == x,
                None => r is None,
            },
            None => r is None,
        },
{
    match v {
        Some(w) => get(w, key),
        None => None,
    }
}

/// What the pointer token of the number `i` reads from a value that may be
/// missing.
pub fn element_in<'a>(v: Option<&'a JsonValue>, i: usize) -> (r: Option<&'a JsonValue>)
    ensures
        match spec_element_in(
            match v {
                Some(w) => Some(*w),
                None => None,
            },
            i as nat,
        ) {
            Some(x) => r matches Some(y) && *y == x,
            None => r is None,
        },
{
    match v {
        Some(JsonValue::Array(a)) => {
            if i < a.len() {
                Some(&a[i])
            } else {
                None
            }
        },
        Some(w) => match w {
            JsonValue::Object(_) => {
                let key = decimal(i as u64);
                get(w, key.as_str())
            },
            _ => None,
        },
        None => None,
    }
}

/// The string a value holds, when it is a string.
pub fn text(v: Option<&JsonValue>) -> (r: Option<String>)
    ensures
        r == spec_text(match v {
            Some(w) => Some(*w),
            None => None,
        }),
{
    match v {
        Some(JsonValue::Str(s)) => Some(s.clone()),
        _ => None,
    }
}

/// The elements of an array as strings, `None` for each that is not one.
pub fn strings(v: Option<&JsonValue>) -> (r: Vec<Option<String>>)
    ensures
        r@ == spec_strings(match v {
            Some(w) => Some(*w),
            None => None,
        }),
{
    let mut r: Vec<Option<String>> = Vec::new();
    match v {
        Some(JsonValue::Array(a)) => {
            let mut i: usize = 0;
            while i < a.len()
                invariant
                    i <= a@.len(),
                    r@ == a@.take(i as int).map_values(|e: JsonValue| spec_text(Some(e))),
                decreases a@.len() - i,
            {
                r.push(text(Some(&a[i])));
                assert(a@.take(i + 1).drop_last() =~= a@.take(i as int));
                assert(r@ =~= a@.take(i + 1).map_values(|e: JsonValue| spec_text(Some(e))));
                i = i + 1;
            }
            assert(a@.take(a@.len() as int) =~= a@);
        },
        _ => {
            assert(r@ =~= Seq::<Option<String>>::empty());
        },
    }
    r
}

} // verus!
