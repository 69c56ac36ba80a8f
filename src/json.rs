//! The serde_json operations the protocol needs, each behind a small
//! trusted function. The library reads JSON as text: each reading below
//! parses its text argument and applies one accessor of `serde_json::Value`,
//! so its result depends on the text alone and is named over it.
use vstd::prelude::*;

use serde_json::Value;

use crate::text::text_of;

verus! {

/// Whether `text` parses as one JSON value.
pub uninterp spec fn is_json(text: Seq<char>) -> bool;

/// The compact JSON text of the member `key` of the object that `text`
/// holds; `None` when `text` is no JSON object or has no such member.
pub uninterp spec fn json_member_text(text: Seq<char>, key: Seq<char>) -> Option<Seq<char>>;

/// The number that `text` holds, when it is JSON for a number fitting a `u64`.
pub uninterp spec fn json_u64_of(text: Seq<char>) -> Option<u64>;

/// The contents of the string that `text` holds, when it is a JSON string.
pub uninterp spec fn json_str_of(text: Seq<char>) -> Option<Seq<char>>;

/// The boolean that `text` holds, when it is a JSON boolean.
pub uninterp spec fn json_bool_of(text: Seq<char>) -> Option<bool>;

/// Whether `text` is JSON for an object.
pub uninterp spec fn json_is_object(text: Seq<char>) -> bool;

/// Whether `text` is JSON for a number.
pub uninterp spec fn json_is_number(text: Seq<char>) -> bool;

/// The compact JSON text of each item of the array that `text` holds, in
/// order; `None` when `text` is no JSON array.
pub uninterp spec fn json_items_of(text: Seq<char>) -> Option<Seq<Seq<char>>>;

/// How serde_json writes one character inside a string literal: quote and
/// backslash behind a backslash, the five short control escapes, other
/// control characters below U+0020 as `\u00` and two lower-case hex digits,
/// every other character as it is.
pub open spec fn escape_char(c: char) -> Seq<char> {
    let u = c as u32;
    if c == '"' {
        seq!['\\', '"']
    } else if c == '\\' {
        seq!['\\', '\\']
    } else if u == 0x08 {
        seq!['\\', 'b']
    } else if u == 0x09 {
        seq!['\\', 't']
    } else if u == 0x0a {
        seq!['\\', 'n']
    } else if u == 0x0c {
        seq!['\\', 'f']
    } else if u == 0x0d {
        seq!['\\', 'r']
    } else if u < 0x20 {
        seq!['\\', 'u', '0', '0', hex_digit(u / 16), hex_digit(u % 16)]
    } else {
        seq![c]
    }
}

/// The lower-case hex digit of `d` (below 16).
pub open spec fn hex_digit(d: u32) -> char {
    if d < 10 {
        ((d + 48) as u32) as char
    } else {
        ((d + 87) as u32) as char
    }
}

/// The characters of `s`, each written as inside a JSON string literal.
pub open spec fn escaped(s: Seq<char>) -> Seq<char>
    decreases s.len(),
{
    if s.len() == 0 {
        seq![]
    } else {
        escaped(s.drop_last()) + escape_char(s.last())
    }
}

/// The JSON string literal that serde_json writes for `s`.
pub open spec fn json_quoted(s: Seq<char>) -> Seq<char> {
    seq!['"'] + escaped(s) + seq!['"']
}

/// Relies on `serde_json::from_str::<Value>`: whether the text parses.
#[verifier::external_body]
pub(crate) fn json_valid(text: &str) -> (r: bool)
    ensures
        r == is_json(text@),
{
    serde_json::from_str::<Value>(text).is_ok()
}

/// Relies on `serde_json::Value::get` with a string key, on the value
/// parsed from `text`: the member's compact JSON text.
#[verifier::external_body]
pub(crate) fn member_text(text: &str, key: &str) -> (r: Option<String>)
    ensures
        text_of(r) == json_member_text(text@, key@),
{
    match serde_json::from_str::<Value>(text) {
        Ok(v) => v.get(key).map(Value::to_string),
        Err(_) => None,
    }
}

/// Relies on `serde_json::Value::as_u64`, on the value parsed from `text`.
#[verifier::external_body]
pub(crate) fn u64_of(text: &str) -> (r: Option<u64>)
    ensures
        r == json_u64_of(text@),
{
    match serde_json::from_str::<Value>(text) {
        Ok(v) => v.as_u64(),
        Err(_) => None,
    }
}

/// Relies on `serde_json::Value::as_str`, on the value parsed from `text`.
#[verifier::external_body]
pub(crate) fn str_of(text: &str) -> (r: Option<String>)
    ensures
        text_of(r) == json_str_of(text@),
{
    match serde_json::from_str::<Value>(text) {
        Ok(v) => v.as_str().map(String::from),
        Err(_) => None,
    }
}

/// Relies on `serde_json::Value::as_bool`, on the value parsed from `text`.
#[verifier::external_body]
pub(crate) fn bool_of(text: &str) -> (r: Option<bool>)
    ensures
        r == json_bool_of(text@),
{
    match serde_json::from_str::<Value>(text) {
        Ok(v) => v.as_bool(),
        Err(_) => None,
    }
}

/// Relies on `serde_json::Value::is_object`, on the value parsed from `text`
/// (text that does not parse is no object).
#[verifier::external_body]
pub(crate) fn is_object_text(text: &str) -> (r: bool)
    ensures
        r == json_is_object(text@),
{
    match serde_json::from_str::<Value>(text) {
        Ok(v) => v.is_object(),
        Err(_) => false,
    }
}

/// Relies on `serde_json::Value::is_number`, on the value parsed from `text`
/// (text that does not parse is no number).
#[verifier::external_body]
pub(crate) fn is_number_text(text: &str) -> (r: bool)
    ensures
        r == json_is_number(text@),
{
    match serde_json::from_str::<Value>(text) {
        Ok(v) => v.is_number(),
        Err(_) => false,
    }
}

/// Relies on `serde_json::Value::as_array`, on the value parsed from `text`:
/// the items, each written back as compact JSON text.
#[verifier::external_body]
pub(crate) fn items_of(text: &str) -> (r: Option<Vec<String>>)
    ensures
        match r {
            Some(v) => json_items_of(text@) == Some(v@.map_values(|s: String| s@)),
            None => json_items_of(text@) is None,
        },
{
    match serde_json::from_str::<Value>(text) {
        Ok(Value::Array(items)) => Some(items.iter().map(Value::to_string).collect()),
        _ => None,
    }
}

/// Relies on `serde_json::to_string` on a `str`, which cannot fail (it
/// writes to a `Vec`): the JSON string literal for `s`, escaped by the
/// table in serde_json's `ser.rs`.
#[verifier::external_body]
pub(crate) fn quote(s: &str) -> (r: String)
    ensures
        r@ == json_quoted(s@),
{
    serde_json::to_string(s).unwrap_or_default()
}

} // verus!
