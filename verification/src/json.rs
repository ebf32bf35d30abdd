//! JSON documents, through `serde_json::Value`. A document is seen as what it
//! holds under each path of object keys, as far as the library reads it: a
//! non-negative integer, a text, or anything else.
use vstd::prelude::*;
use crate::jvm::{edit_value_view, EditValueText, JsonEditValue, JsonScalar, ScalarText};

verus! {

#[verifier::external_type_specification]
#[verifier::external_body]
pub struct ExJsonValue(serde_json::Value);

/// What a parsed JSON value holds under each non-empty path of object keys
/// that leads to a value: the value as a non-negative integer that fits in
/// `u64`, as a text, or as anything else (a float, a negative number, a flag,
/// null, an array or an object). Paths through anything but objects lead
/// nowhere.
pub uninterp spec fn json_entries(v: serde_json::Value) -> Map<Seq<Seq<char>>, ScalarText>;

/// Whether keys can be set in a value: it is an object, or null (which setting
/// a key turns into an object).
pub uninterp spec fn json_settable(v: serde_json::Value) -> bool;

/// Whether a value nests no deeper than `serde_json`'s parser accepts (128
/// levels of arrays and objects), so that its text parses again.
pub uninterp spec fn json_parsable(v: serde_json::Value) -> bool;

/// Whether a text is a JSON document that `serde_json::from_str` accepts.
pub uninterp spec fn json_valid(text: Seq<char>) -> bool;

/// What the JSON document in a text holds, as `json_entries` sees its value.
pub uninterp spec fn json_text_entries(text: Seq<char>) -> Map<Seq<Seq<char>>, ScalarText>;

/// Whether keys can be set in the value of the JSON document in a text.
pub uninterp spec fn json_text_settable(text: Seq<char>) -> bool;

/// The message of the error that `serde_json::from_str` reports for a text
/// that is not a JSON document.
pub uninterp spec fn json_error_text(text: Seq<char>) -> Seq<char>;

/// The entry under a path, if any.
pub open spec fn entry_at(m: Map<Seq<Seq<char>>, ScalarText>, p: Seq<Seq<char>>) -> Option<ScalarText> {
    if m.dom().contains(p) {
        Some(m[p])
    } else {
        None
    }
}

/// The text under a path, if a text is there.
pub open spec fn text_at(m: Map<Seq<Seq<char>>, ScalarText>, p: Seq<Seq<char>>) -> Option<Seq<char>> {
    match entry_at(m, p) {
        Some(ScalarText::Text(s)) => Some(s),
        _ => None,
    }
}

/// The entries after the top-level key `key` is set to a value seen as `x`:
/// nothing is left under the key's old value.
pub open spec fn set_entry(
    m: Map<Seq<Seq<char>>, ScalarText>,
    key: Seq<char>,
    x: ScalarText,
) -> Map<Seq<Seq<char>>, ScalarText> {
    Map::new(
        |p: Seq<Seq<char>>| p == seq![key] || (m.dom().contains(p) && !(p.len() > 0 && p[0] == key)),
        |p: Seq<Seq<char>>| if p == seq![key] { x } else { m[p] },
    )
}

/// How a value written by an edit is seen: a number as a number, a text as a
/// text, a flag as anything else.
pub open spec fn written_scalar(v: EditValueText) -> ScalarText {
    match v {
        EditValueText::Number(n) => ScalarText::Number(n as u64),
        EditValueText::Text(s) => ScalarText::Text(s),
        EditValueText::Flag(_) => ScalarText::Other,
    }
}

pub open spec fn scalar_opt_view(o: Option<JsonScalar>) -> Option<ScalarText> {
    match o {
        Some(x) => Some(crate::jvm::scalar_view(x)),
        None => None,
    }
}

/// `serde_json::from_str` into a `Value`. Whether it succeeds, what the value
/// holds and the error message depend on the text alone; the error is given as
/// its `Display` text.
#[verifier::external_body]
pub fn json_parse(text: &str) -> (r: Result<serde_json::Value, String>)
    ensures
        r is Ok <==> json_valid(text@),
        r matches Ok(v) ==> json_entries(v) == json_text_entries(text@) && json_settable(v)
            == json_text_settable(text@) && json_parsable(v),
        r matches Err(e) ==> e@ == json_error_text(text@),
{
    serde_json::from_str::<serde_json::Value>(text).map_err(|e| e.to_string())
}

/// `Value::get(key)` on a value, seen as `json_entries` sees it: a string as its
/// text, a number as `as_u64` gives it, anything else as other.
#[verifier::external_body]
pub fn json_get(v: &serde_json::Value, key: &str) -> (r: Option<JsonScalar>)
    ensures
        scalar_opt_view(r) == entry_at(json_entries(*v), seq![key@]),
{
    match v.get(key) {
        Some(serde_json::Value::String(s)) => Some(JsonScalar::Text(s.clone())),
        Some(serde_json::Value::Number(n)) => Some(match n.as_u64() {
            Some(u) => JsonScalar::Number(u),
            None => JsonScalar::Other,
        }),
        Some(_) => Some(JsonScalar::Other),
        None => None,
    }
}

/// `Value::get(outer)` and then `get(key)` on what is there, seen as in
/// `json_get`.
#[verifier::external_body]
pub fn json_get_in(v: &serde_json::Value, outer: &str, key: &str) -> (r: Option<JsonScalar>)
    ensures
        scalar_opt_view(r) == entry_at(json_entries(*v), seq![outer@, key@]),
{
    let inner = match v.get(outer) {
        Some(o) => o.get(key),
        None => None,
    };
    match inner {
        Some(serde_json::Value::String(s)) => Some(JsonScalar::Text(s.clone())),
        Some(serde_json::Value::Number(n)) => Some(match n.as_u64() {
            Some(u) => JsonScalar::Number(u),
            None => JsonScalar::Other,
        }),
        Some(_) => Some(JsonScalar::Other),
        None => None,
    }
}

/// `value[key] = ...` (`IndexMut` for `str`): sets the key of an object, after
/// turning null into an empty object; it panics on anything else, which
/// `requires` leaves out. A number is written as `Value::from(u32)`, a text as a
/// string, a flag as a boolean.
#[verifier::external_body]
pub fn json_set(v: &mut serde_json::Value, key: &str, value: &JsonEditValue)
    requires
        json_settable(*old(v)),
    ensures
        json_settable(*final(v)),
        json_parsable(*old(v)) ==> json_parsable(*final(v)),
        json_entries(*final(v)) == set_entry(
            json_entries(*old(v)),
            key@,
            written_scalar(edit_value_view(*value)),
        ),
{
    v[key] = match value {
        JsonEditValue::Number(n) => serde_json::Value::from(*n),
        JsonEditValue::Text(s) => serde_json::Value::String(s.clone()),
        JsonEditValue::Flag(b) => serde_json::Value::Bool(*b),
    };
}

/// Whether a value is an object or null (`Value::is_object`, `Value::is_null`).
#[verifier::external_body]
pub fn json_is_settable(v: &serde_json::Value) -> (r: bool)
    ensures
        r == json_settable(*v),
{
    v.is_object() || v.is_null()
}

/// `serde_json::to_string_pretty` on a value. Serialising a `Value` into memory
/// does not fail: its map keys are strings and its numbers finite. Where the
/// value does not nest too deep for the parser, the text parses back to a value
/// that holds the same: strings and integers are written exactly, floats are
/// written with a `.` or an exponent so that they come back as floats, and
/// objects, arrays and null keep their kind.
#[verifier::external_body]
pub fn json_pretty(v: &serde_json::Value) -> (r: Result<String, String>)
    ensures
        r is Ok,
        r matches Ok(s) ==> (json_parsable(*v) ==> json_valid(s@) && json_text_entries(s@)
            == json_entries(*v) && json_text_settable(s@) == json_settable(*v)),
{
    serde_json::to_string_pretty(v).map_err(|e| e.to_string())
}

} // verus!
