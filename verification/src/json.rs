//! Trusted view of `serde_json` values.
//!
//! The bridge's envelopes and event payloads are raw JSON text; parsing them
//! is delegated to `serde_json`.  A parsed [`serde_json::Value`] is opaque to
//! the verifier, so this module gives it a mathematical model: [`JsonData`]
//! describes what a value holds, [`json_data`] names the model of a concrete
//! value, and [`json_of_text`] names what parsing a given text yields.  The
//! trusted wrappers below relate each `serde_json` call to those names; all
//! envelope and payload logic is then verified against them.

use vstd::prelude::*;

verus! {

#[verifier::external_type_specification]
#[verifier::external_body]
pub struct ExJsonValue(serde_json::Value);

/// The mathematical model of a JSON document.
///
/// Numbers that `serde_json` stores as integers are modelled exactly by
/// `Num`; numbers it stores as floating point carry no information the bridge
/// reads and are modelled by `Float`.
pub ghost enum JsonData {
    Null,
    Bool(bool),
    Num(int),
    Float,
    Str(Seq<char>),
    Arr(Seq<JsonData>),
    Obj(Map<Seq<char>, JsonData>),
}

/// The model of a concrete `serde_json::Value`.
pub uninterp spec fn json_data(v: serde_json::Value) -> JsonData;

/// What parsing a text as JSON yields: `None` when the text is malformed,
/// otherwise the model of the parsed value.  Parsing depends on the text
/// alone.
pub uninterp spec fn json_of_text(s: Seq<char>) -> Option<JsonData>;

/// Relies on `serde_json::from_str::<Value>`: the result is a function of the
/// text alone; errors are mapped to `None`.
#[verifier::external_body]
pub fn json_parse(s: &str) -> (r: Option<serde_json::Value>)
    ensures
        r.is_some() == json_of_text(s@).is_some(),
        r.is_some() ==> json_data(r.unwrap()) == json_of_text(s@).unwrap(),
{
    serde_json::from_str::<serde_json::Value>(s).ok()
}

/// Relies on `serde_json::Value::get` (member lookup in an object, `None` on
/// any other value or a missing key) and `Value::clone`, which preserves the
/// value.
#[verifier::external_body]
pub fn json_member(v: &serde_json::Value, key: &str) -> (r: Option<serde_json::Value>)
    ensures
        match json_data(*v) {
            JsonData::Obj(m) => {
                &&& r.is_some() == m.dom().contains(key@)
                &&& (r.is_some() ==> json_data(r.unwrap()) == m[key@])
            },
            _ => r.is_none(),
        },
{
    v.get(key).cloned()
}

/// Relies on `serde_json::Value::as_str`: `Some` exactly for JSON strings,
/// with their character content.
#[verifier::external_body]
pub fn json_str(v: &serde_json::Value) -> (r: Option<String>)
    ensures
        match json_data(*v) {
            JsonData::Str(s) => r.is_some() && r.unwrap()@ == s,
            _ => r.is_none(),
        },
{
    v.as_str().map(|s| s.to_string())
}

/// Relies on `serde_json::Value::as_u64`: `Some` exactly for numbers stored
/// as unsigned integers.
#[verifier::external_body]
pub fn json_u64(v: &serde_json::Value) -> (r: Option<u64>)
    ensures
        match json_data(*v) {
            JsonData::Num(n) => {
                &&& r.is_some() == (0 <= n <= u64::MAX)
                &&& (r.is_some() ==> r.unwrap() == n)
            },
            _ => r.is_none(),
        },
{
    v.as_u64()
}

/// Relies on `serde_json::Value::as_bool`: `Some` exactly for JSON booleans.
#[verifier::external_body]
pub fn json_bool(v: &serde_json::Value) -> (r: Option<bool>)
    ensures
        match json_data(*v) {
            JsonData::Bool(b) => r == Some(b),
            _ => r.is_none(),
        },
{
    v.as_bool()
}

/// Relies on `serde_json::Value::is_null`.
#[verifier::external_body]
pub fn json_is_null(v: &serde_json::Value) -> (r: bool)
    ensures
        r == (json_data(*v) is Null),
{
    v.is_null()
}

/// The member of an object model, if the model is an object holding the key.
pub open spec fn spec_member(d: JsonData, key: Seq<char>) -> Option<JsonData> {
    match d {
        JsonData::Obj(m) => if m.dom().contains(key) {
            Some(m[key])
        } else {
            None
        },
        _ => None,
    }
}

/// The character content of a member that is a JSON string.
pub open spec fn spec_member_str(d: JsonData, key: Seq<char>) -> Option<Seq<char>> {
    match spec_member(d, key) {
        Some(JsonData::Str(s)) => Some(s),
        _ => None,
    }
}

/// The value of a member that is a number within `u64` range.
pub open spec fn spec_member_u64(d: JsonData, key: Seq<char>) -> Option<int> {
    match spec_member(d, key) {
        Some(JsonData::Num(n)) => if 0 <= n <= u64::MAX {
            Some(n)
        } else {
            None
        },
        _ => None,
    }
}

/// Looks up a member and returns its string content, when both steps apply.
pub fn member_str(v: &serde_json::Value, key: &str) -> (r: Option<String>)
    ensures
        match spec_member_str(json_data(*v), key@) {
            Some(s) => r.is_some() && r.unwrap()@ == s,
            None => r.is_none(),
        },
{
    match json_member(v, key) {
        Some(m) => json_str(&m),
        None => None,
    }
}

/// Looks up a member and returns its value as a `u64`, when both steps apply.
pub fn member_u64(v: &serde_json::Value, key: &str) -> (r: Option<u64>)
    ensures
        match spec_member_u64(json_data(*v), key@) {
            Some(n) => r == Some(n as u64),
            None => r.is_none(),
        },
{
    match json_member(v, key) {
        Some(m) => json_u64(&m),
        None => None,
    }
}

/// Whether an object model holds a key at all.
pub open spec fn spec_has_member(d: JsonData, key: Seq<char>) -> bool {
    spec_member(d, key).is_some()
}

/// Whether a value holds a member under the key.
pub fn has_member(v: &serde_json::Value, key: &str) -> (r: bool)
    ensures
        r == spec_has_member(json_data(*v), key@),
{
    json_member(v, key).is_some()
}

} // verus!
