//! JSON values, as far as the client reads them.
//!
//! Payloads stay `serde_json::Value`s from end to end, so that every field the
//! engine sent is kept as it came. The client itself reads only a few named
//! members; this module states what those reads return.

use serde_json::Value;
use vstd::prelude::*;

verus! {

#[verifier::external_type_specification]
#[verifier::external_body]
pub struct ExValue(serde_json::Value);

/// The document that a text denotes; `None` where the text is not one JSON value.
pub uninterp spec fn json_document(text: Seq<char>) -> Option<Value>;

/// The members of a JSON object by name; empty for a value that is no object.
pub uninterp spec fn json_members(value: Value) -> Map<Seq<char>, Value>;

/// The items of a JSON array in order; `None` for a value that is no array.
pub uninterp spec fn json_items(value: Value) -> Option<Seq<Value>>;

/// The text of a JSON string; `None` for a value that is no string.
pub uninterp spec fn json_text(value: Value) -> Option<Seq<char>>;

/// The number that a JSON value holds, where it is an integer of 64 bits with
/// sign; `None` for any other value.
pub uninterp spec fn json_integer(value: Value) -> Option<i64>;

/// Whether a JSON value is an object.
pub uninterp spec fn json_is_object(value: Value) -> bool;

/// The truth value that a JSON value holds; `None` for a value that is none.
pub uninterp spec fn json_flag(value: Value) -> Option<bool>;

/// The member `key` of `value`, where `value` is an object that has it.
pub open spec fn member_of(value: Value, key: Seq<char>) -> Option<Value> {
    if json_members(value).contains_key(key) {
        Some(json_members(value)[key])
    } else {
        None
    }
}

/// The text of the member `key`, where there is such a member and it is a string.
pub open spec fn text_member(value: Value, key: Seq<char>) -> Option<Seq<char>> {
    match member_of(value, key) {
        Some(m) => json_text(m),
        None => None,
    }
}

/// The integer in the member `key`, where there is such a member and it holds one.
pub open spec fn integer_member(value: Value, key: Seq<char>) -> Option<i64> {
    match member_of(value, key) {
        Some(m) => json_integer(m),
        None => None,
    }
}

/// `serde_json::from_str` at `Value`: reads one JSON value from `text`. The
/// result is a function of the text alone; an error of the parser is `None`.
#[verifier::external_body]
pub(crate) fn parse(text: &str) -> (r: Option<Value>)
    ensures
        r == json_document(text@),
{
    serde_json::from_str::<Value>(text).ok()
}

/// `serde_json::Value::get` with a string key: the member of that name if the
/// value is an object that has one, else `None`.
#[verifier::external_body]
pub(crate) fn member<'a>(value: &'a Value, key: &str) -> (r: Option<&'a Value>)
    ensures
        match r {
            Some(m) => json_members(*value).contains_key(key@) && json_members(*value)[key@] == *m,
            None => !json_members(*value).contains_key(key@),
        },
{
    value.get(key)
}

/// `serde_json::Value::is_object`: whether the value is an object.
#[verifier::external_body]
pub(crate) fn is_object(value: &Value) -> (r: bool)
    ensures
        r == json_is_object(*value),
{
    value.is_object()
}

/// `serde_json::Value::as_str`: the text if the value is a string.
#[verifier::external_body]
pub(crate) fn text<'a>(value: &'a Value) -> (r: Option<&'a str>)
    ensures
        match r {
            Some(s) => json_text(*value) == Some(s@),
            None => json_text(*value) is None,
        },
{
    value.as_str()
}

/// `serde_json::Value::as_i64`: the number if the value is an integer that
/// fits 64 bits with sign.
#[verifier::external_body]
pub(crate) fn integer(value: &Value) -> (r: Option<i64>)
    ensures
        r == json_integer(*value),
{
    value.as_i64()
}

/// `serde_json::Value::as_array`: the items if the value is an array.
#[verifier::external_body]
pub(crate) fn items<'a>(value: &'a Value) -> (r: Option<&'a Vec<Value>>)
    ensures
        match r {
            Some(v) => json_items(*value) == Some(v@),
            None => json_items(*value) is None,
        },
{
    value.as_array()
}

/// No members at all.
pub open spec fn no_members() -> Map<Seq<char>, Value> {
    Map::empty()
}

/// `serde_json::Value::Object` of `serde_json::Map::new`: an object without
/// members.
#[verifier::external_body]
pub(crate) fn empty_object() -> (r: Value)
    ensures
        json_is_object(r),
        json_members(r) == no_members(),
{
    Value::Object(serde_json::Map::new())
}

/// `IndexMut` of `serde_json::Value` with a string key, then an assignment:
/// the object gets the member, in place of one of the same name. Only an
/// object is handed in: on other values the index panics.
#[verifier::external_body]
pub(crate) fn set_member(object: &mut Value, key: &str, member: Value)
    requires
        json_is_object(*old(object)),
    ensures
        json_is_object(*final(object)),
        json_members(*final(object)) == json_members(*old(object)).insert(key@, member),
{
    object[key] = member;
}

/// `From<&str>` of `serde_json::Value`: the string with this text.
#[verifier::external_body]
pub(crate) fn text_value(text: &str) -> (r: Value)
    ensures
        json_text(r) == Some(text@),
{
    Value::from(text)
}

/// `From<i64>` of `serde_json::Value`: the number with this value.
#[verifier::external_body]
pub(crate) fn integer_value(n: i64) -> (r: Value)
    ensures
        json_integer(r) == Some(n),
{
    Value::from(n)
}

/// `From<bool>` of `serde_json::Value`: this truth value.
#[verifier::external_body]
pub(crate) fn flag_value(flag: bool) -> (r: Value)
    ensures
        json_flag(r) == Some(flag),
{
    Value::from(flag)
}

/// A JSON value written as text, in the compact form.
pub uninterp spec fn json_rendering(value: Value) -> Seq<char>;

/// `Display` of `serde_json::Value`: the value as compact JSON text, which is
/// a function of the value alone.
#[verifier::external_body]
pub(crate) fn to_text(value: &Value) -> (r: String)
    ensures
        r@ == json_rendering(*value),
{
    value.to_string()
}

/// `Clone` of `serde_json::Value`: an equal value.
pub assume_specification[ <Value as Clone>::clone ](value: &Value) -> (r: Value)
    ensures
        r == *value,
;

/// The items of the member `key` of `value`; none where there is no such
/// member or it is no array.
pub open spec fn items_member(value: Value, key: Seq<char>) -> Seq<Value> {
    match member_of(value, key) {
        Some(m) => match json_items(m) {
            Some(list) => list,
            None => Seq::<Value>::empty(),
        },
        None => Seq::<Value>::empty(),
    }
}

/// Copies of the items of the member `key` of `value`.
pub fn member_items(value: &Value, key: &str) -> (r: Vec<Value>)
    ensures
        r@ == items_member(*value, key@),
{
    let mut out: Vec<Value> = Vec::new();
    match member(value, key) {
        Some(m) => match items(m) {
            Some(list) => {
                let mut i: usize = 0;
                while i < list.len()
                    invariant
                        i <= list@.len(),
                        out@ == list@.take(i as int),
                    decreases list@.len() - i,
                {
                    out.push(list[i].clone());
                    assert(list@.take(i + 1) =~= list@.take(i as int).push(list@[i as int]));
                    i = i + 1;
                }
                assert(list@.take(i as int) =~= list@);
            },
            None => {},
        },
        None => {},
    }
    out
}

/// The text of the member `key` of `value`.
pub fn member_text<'a>(value: &'a Value, key: &str) -> (r: Option<&'a str>)
    ensures
        match r {
            Some(s) => text_member(*value, key@) == Some(s@),
            None => text_member(*value, key@) is None,
        },
{
    match member(value, key) {
        Some(m) => text(m),
        None => None,
    }
}

/// The integer in the member `key` of `value`.
pub fn member_integer(value: &Value, key: &str) -> (r: Option<i64>)
    ensures
        r == integer_member(*value, key@),
{
    match member(value, key) {
        Some(m) => integer(m),
        None => None,
    }
}

} // verus!
