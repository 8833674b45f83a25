//! JSON values as `serde_json` reads them, and the few questions that the
//! codecs ask of one. Parsing and the accessors are `serde_json`'s; what is
//! built on them here is verified against the names below.

use vstd::prelude::*;
use crate::payload::opt_text;

verus! {

/// `serde_json::Value`, a parsed JSON value. Nothing of its inside is known
/// to the verifier but what the names below say.
#[verifier::external_type_specification]
#[verifier::external_body]
pub struct ExJsonValue(serde_json::Value);

/// The value that `serde_json::from_str` reads from a text, or `None` where
/// it reports an error.
pub uninterp spec fn json_parse(text: Seq<char>) -> Option<serde_json::Value>;

/// The member that `serde_json::Value::get` finds under a key: `None`
/// unless the value is an object that has the key.
pub uninterp spec fn json_member(v: serde_json::Value, key: Seq<char>) -> Option<serde_json::Value>;

/// The characters that `serde_json::Value::as_str` gives: `None` unless the
/// value is a string.
pub uninterp spec fn json_str(v: serde_json::Value) -> Option<Seq<char>>;

/// The number that `serde_json::Value::as_u64` gives: `None` unless the
/// value is an integer from 0 to `u64::MAX`.
pub uninterp spec fn json_u64(v: serde_json::Value) -> Option<u64>;

/// The truth value that `serde_json::Value::as_bool` gives: `None` unless
/// the value is `true` or `false`.
pub uninterp spec fn json_bool(v: serde_json::Value) -> Option<bool>;

/// What `serde_json::Value::is_null` says: whether the value is `null`.
pub uninterp spec fn json_is_null(v: serde_json::Value) -> bool;

/// The JSON string literal, quotes and escapes included, that
/// `serde_json::to_string` writes for a string.
pub uninterp spec fn json_quoted(s: Seq<char>) -> Seq<char>;

/// Calls `serde_json::from_str` for a `serde_json::Value`. The result is
/// the parsed value; a text that is no JSON document gives `None`.
#[verifier::external_body]
pub(crate) fn parse_json(text: &str) -> (r: Option<serde_json::Value>)
    ensures
        r == json_parse(text@),
{
    serde_json::from_str::<serde_json::Value>(text).ok()
}

/// Calls `serde_json::Value::get` with a string key. The result is the
/// member under that key if the value is an object that has it.
#[verifier::external_body]
pub(crate) fn member<'a>(v: &'a serde_json::Value, key: &str) -> (r: Option<&'a serde_json::Value>)
    ensures
        match r {
            Some(m) => json_member(*v, key@) == Some(*m),
            None => json_member(*v, key@) is None,
        },
{
    v.get(key)
}

/// `serde_json::Value::as_str` returns the string's characters if the value
/// is a string.
pub assume_specification[ serde_json::Value::as_str ](v: &serde_json::Value) -> (r: Option<&str>)
    ensures
        match r {
            Some(s) => json_str(*v) == Some(s@),
            None => json_str(*v) is None,
        },
;

/// `serde_json::Value::as_u64` returns the number if the value is an
/// integer that fits `u64`.
pub assume_specification[ serde_json::Value::as_u64 ](v: &serde_json::Value) -> (r: Option<u64>)
    ensures
        r == json_u64(*v),
;

/// `serde_json::Value::as_bool` returns the truth value if the value is a
/// boolean.
pub assume_specification[ serde_json::Value::as_bool ](v: &serde_json::Value) -> (r: Option<bool>)
    ensures
        r == json_bool(*v),
;

/// `serde_json::Value::is_null` tells whether the value is `null`.
pub assume_specification[ serde_json::Value::is_null ](v: &serde_json::Value) -> (r: bool)
    ensures
        r == json_is_null(*v),
;

/// Calls `serde_json::to_string` on a string. The result is the string as
/// a JSON literal; writing a string into memory cannot fail.
#[verifier::external_body]
pub(crate) fn quote(s: &str) -> (r: String)
    ensures
        r@ == json_quoted(s@),
{
    serde_json::to_string(s).unwrap_or_default()
}

/// A member that must be a string.
pub open spec fn field_str(v: serde_json::Value, key: Seq<char>) -> Option<Seq<char>> {
    match json_member(v, key) {
        Some(m) => json_str(m),
        None => None,
    }
}

/// A member that must be an integer from 0 to `u64::MAX`.
pub open spec fn field_u64(v: serde_json::Value, key: Seq<char>) -> Option<u64> {
    match json_member(v, key) {
        Some(m) => json_u64(m),
        None => None,
    }
}

/// A member that must be a boolean.
pub open spec fn field_bool(v: serde_json::Value, key: Seq<char>) -> Option<bool> {
    match json_member(v, key) {
        Some(m) => json_bool(m),
        None => None,
    }
}

/// A string member that may be missing or `null`. The outer `None` stands
/// for a member of another kind.
pub open spec fn field_opt_str(v: serde_json::Value, key: Seq<char>) -> Option<Option<Seq<char>>> {
    match json_member(v, key) {
        Some(m) => if json_is_null(m) {
            Some(None)
        } else {
            match json_str(m) {
                Some(s) => Some(Some(s)),
                None => None,
            }
        },
        None => Some(None),
    }
}

/// An integer member that may be missing or `null` and must not exceed
/// `max`. The outer `None` stands for any other member.
pub open spec fn field_opt_u64(v: serde_json::Value, key: Seq<char>, max: u64) -> Option<
    Option<u64>,
> {
    match json_member(v, key) {
        Some(m) => if json_is_null(m) {
            Some(None)
        } else {
            match json_u64(m) {
                Some(n) => if n <= max {
                    Some(Some(n))
                } else {
                    None
                },
                None => None,
            }
        },
        None => Some(None),
    }
}

/// The characters of an optional optional string.
pub open spec fn opt_opt_text(s: Option<Option<String>>) -> Option<Option<Seq<char>>> {
    match s {
        Some(inner) => Some(opt_text(inner)),
        None => None,
    }
}

/// Reads a member that must be a string.
pub fn get_str(v: &serde_json::Value, key: &str) -> (r: Option<String>)
    ensures
        opt_text(r) == field_str(*v, key@),
{
    match member(v, key) {
        Some(m) => match m.as_str() {
            Some(s) => Some(s.to_owned()),
            None => None,
        },
        None => None,
    }
}

/// Reads a member that must be an integer from 0 to `u64::MAX`.
pub fn get_u64(v: &serde_json::Value, key: &str) -> (r: Option<u64>)
    ensures
        r == field_u64(*v, key@),
{
    match member(v, key) {
        Some(m) => m.as_u64(),
        None => None,
    }
}

/// Reads a member that must be a boolean.
pub fn get_bool(v: &serde_json::Value, key: &str) -> (r: Option<bool>)
    ensures
        r == field_bool(*v, key@),
{
    match member(v, key) {
        Some(m) => m.as_bool(),
        None => None,
    }
}

/// Reads a string member that may be missing or `null`.
pub fn get_opt_str(v: &serde_json::Value, key: &str) -> (r: Option<Option<String>>)
    ensures
        opt_opt_text(r) == field_opt_str(*v, key@),
{
    match member(v, key) {
        Some(m) => {
            if m.is_null() {
                Some(None)
            } else {
                match m.as_str() {
                    Some(s) => Some(Some(s.to_owned())),
                    None => None,
                }
            }
        },
        None => Some(None),
    }
}

/// Reads an integer member that may be missing or `null` and must not
/// exceed `max`.
pub fn get_opt_u64(v: &serde_json::Value, key: &str, max: u64) -> (r: Option<Option<u64>>)
    ensures
        r == field_opt_u64(*v, key@, max),
{
    match member(v, key) {
        Some(m) => {
            if m.is_null() {
                Some(None)
            } else {
                match m.as_u64() {
                    Some(n) => if n <= max {
                        Some(Some(n))
                    } else {
                        None
                    },
                    None => None,
                }
            }
        },
        None => Some(None),
    }
}

} // verus!
