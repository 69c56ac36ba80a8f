//! How request handlers read their parameters, and the errors they report.
use vstd::prelude::*;

use crate::json::{
    bool_of, is_object_text, json_bool_of, json_is_object, json_member_text, json_str_of, json_u64_of,
    member_text, str_of, u64_of,
};
use crate::text::{push_all, text_of};

verus! {

/// The error for a method with no handler.
pub open spec fn unknown_method_msg(m: Seq<char>) -> Seq<char> {
    "unknown method: "@ + m
}

/// The error for a method with no handler, naming it.
pub fn unknown_method(method: &str) -> (r: String)
    ensures
        r@ == unknown_method_msg(method@),
{
    let mut out = "unknown method: ".to_owned();
    push_all(&mut out, method);
    out
}

/// The error for parameters that are not an object.
pub open spec fn missing_msg(key: Seq<char>) -> Seq<char> {
    "missing `"@ + key + "`"@
}

/// The error for a member that is absent or not a string.
pub open spec fn invalid_msg(key: Seq<char>) -> Seq<char> {
    "missing or invalid `"@ + key + "`"@
}

/// The outcome of reading a required string member, given whether the
/// parameters are an object and the member's string, if it is one.
pub open spec fn string_param_of(object: bool, member: Option<Seq<char>>, key: Seq<char>) -> Result<
    Seq<char>,
    Seq<char>,
> {
    if !object {
        Err(missing_msg(key))
    } else {
        match member {
            Some(s) => Ok(s),
            None => Err(invalid_msg(key)),
        }
    }
}

/// Reads a required string member, given whether the parameters are an
/// object and the member's string, if it is one.
pub fn string_param(object: bool, member: Option<String>, key: &str) -> (r: Result<String, String>)
    ensures
        match r {
            Ok(s) => string_param_of(object, text_of(member), key@) == Ok::<Seq<char>, Seq<char>>(s@),
            Err(e) => string_param_of(object, text_of(member), key@) == Err::<Seq<char>, Seq<char>>(e@),
        },
{
    if !object {
        let mut m = "missing `".to_owned();
        push_all(&mut m, key);
        push_all(&mut m, "`");
        return Err(m);
    }
    match member {
        Some(s) => Ok(s),
        None => {
            let mut m = "missing or invalid `".to_owned();
            push_all(&mut m, key);
            push_all(&mut m, "`");
            Err(m)
        },
    }
}

/// The string member `key` of the parameters `p` (JSON text), if it is one.
pub open spec fn member_str(p: Seq<char>, key: Seq<char>) -> Option<Seq<char>> {
    match json_member_text(p, key) {
        Some(m) => json_str_of(m),
        None => None,
    }
}

/// A required string member of the parameters (JSON text). The error names
/// the member: "missing" when the parameters are no object, "missing or
/// invalid" when the member is absent or no string.
pub fn parse_string(params: &str, key: &str) -> (r: Result<String, String>)
    ensures
        match r {
            Ok(s) => string_param_of(json_is_object(params@), member_str(params@, key@), key@)
                == Ok::<Seq<char>, Seq<char>>(s@),
            Err(e) => string_param_of(json_is_object(params@), member_str(params@, key@), key@)
                == Err::<Seq<char>, Seq<char>>(e@),
        },
{
    let object = is_object_text(params);
    let member = if object {
        match member_text(params, key) {
            Some(m) => str_of(m.as_str()),
            None => None,
        }
    } else {
        None
    };
    string_param(object, member, key)
}

/// An optional string member of the parameters (JSON text).
pub fn parse_optional_string(params: &str, key: &str) -> (r: Option<String>)
    ensures
        text_of(r) == member_str(params@, key@),
{
    match member_text(params, key) {
        Some(m) => str_of(m.as_str()),
        None => None,
    }
}

/// A number that fits a `u32`.
pub fn narrow_u32(v: Option<u64>) -> (r: Option<u32>)
    ensures
        r == (match v {
            Some(n) => if n <= u32::MAX as u64 {
                Some(n as u32)
            } else {
                None
            },
            None => None,
        }),
{
    match v {
        Some(n) => if n > u32::MAX as u64 {
            None
        } else {
            Some(n as u32)
        },
        None => None,
    }
}

/// The member `key` of the parameters `p`, when it is a number fitting a `u32`.
pub open spec fn member_u32(p: Seq<char>, key: Seq<char>) -> Option<u32> {
    match json_member_text(p, key) {
        Some(m) => match json_u64_of(m) {
            Some(n) => if n <= u32::MAX as u64 {
                Some(n as u32)
            } else {
                None
            },
            None => None,
        },
        None => None,
    }
}

/// An optional member of the parameters (JSON text) that is a number
/// fitting a `u32`.
pub fn parse_optional_u32(params: &str, key: &str) -> (r: Option<u32>)
    ensures
        r == member_u32(params@, key@),
{
    match member_text(params, key) {
        Some(m) => narrow_u32(u64_of(m.as_str())),
        None => None,
    }
}

/// The boolean member `key` of the parameters `p`, if it is one.
pub open spec fn member_bool(p: Seq<char>, key: Seq<char>) -> Option<bool> {
    match json_member_text(p, key) {
        Some(m) => json_bool_of(m),
        None => None,
    }
}

/// An optional boolean member of the parameters (JSON text).
pub fn parse_optional_bool(params: &str, key: &str) -> (r: Option<bool>)
    ensures
        r == member_bool(params@, key@),
{
    match member_text(params, key) {
        Some(m) => bool_of(m.as_str()),
        None => None,
    }
}

} // verus!
