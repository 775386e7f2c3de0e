//! The boundary with `serde_json`: values are built and carried as opaque
//! `serde_json::Value`s, and their text is produced by `serde_json`.
use vstd::prelude::*;

verus! {

#[verifier::external_type_specification]
#[verifier::external_body]
pub struct ExValue(serde_json::Value);

#[verifier::external_type_specification]
#[verifier::external_body]
pub struct ExJsonError(serde_json::Error);

/// The compact JSON text of a value.
pub uninterp spec fn json_text(v: serde_json::Value) -> Seq<char>;

/// The JSON string value holding `s`.
pub uninterp spec fn json_string_of(s: Seq<char>) -> serde_json::Value;

/// The JSON boolean value `b`.
pub uninterp spec fn json_bool_of(b: bool) -> serde_json::Value;

/// The JSON object with these members; where a name repeats, the last wins.
pub uninterp spec fn json_object_of(entries: Seq<(Seq<char>, serde_json::Value)>) -> serde_json::Value;

/// The JSON array of these items, in order.
pub uninterp spec fn json_array_of(items: Seq<serde_json::Value>) -> serde_json::Value;

/// The members of the JSON object that `text` parses to, in the order the
/// parser's map yields them; `None` when `text` is not a JSON object.
pub uninterp spec fn parsed_object(text: Seq<char>) -> Option<Seq<(Seq<char>, serde_json::Value)>>;

/// The view of a list of named values: each name by its characters.
pub open spec fn entries_view(v: Seq<(String, serde_json::Value)>) -> Seq<(Seq<char>, serde_json::Value)> {
    v.map_values(|e: (String, serde_json::Value)| (e.0@, e.1))
}

/// The view of a parse result: the entries, if there were any.
pub open spec fn parsed_view(r: Option<Vec<(String, serde_json::Value)>>) -> Option<Seq<(Seq<char>, serde_json::Value)>> {
    match r {
        Some(v) => Some(entries_view(v@)),
        None => None,
    }
}

/// Relies on `serde_json::to_string` applied to a `serde_json::Value`: its
/// compact text, which depends on the value alone. It cannot fail: it writes
/// into a `Vec`, and a `Value`'s map keys are always strings.
#[verifier::external_body]
fn to_string_value(v: &serde_json::Value) -> (r: Result<String, serde_json::Error>)
    ensures
        r is Ok,
        r matches Ok(t) ==> t@ == json_text(*v),
{
    serde_json::to_string(v)
}

/// Relies on `serde_json::Value::String`: the string value holding `s`.
#[verifier::external_body]
fn value_from_string(s: String) -> (r: serde_json::Value)
    ensures
        r == json_string_of(s@),
{
    serde_json::Value::String(s)
}

/// Relies on `serde_json::Value::Bool`: the boolean value `b`.
#[verifier::external_body]
fn value_from_bool(b: bool) -> (r: serde_json::Value)
    ensures
        r == json_bool_of(b),
{
    serde_json::Value::Bool(b)
}

/// Relies on collecting into a `serde_json::Map` (its `FromIterator`, in
/// which a later member with a repeated name wins), held in `Value::Object`.
#[verifier::external_body]
fn value_from_entries(entries: Vec<(String, serde_json::Value)>) -> (r: serde_json::Value)
    ensures
        r == json_object_of(entries_view(entries@)),
{
    serde_json::Value::Object(entries.into_iter().collect())
}

/// Relies on `serde_json::Value::Array`: the array of these items.
#[verifier::external_body]
fn value_from_items(items: Vec<serde_json::Value>) -> (r: serde_json::Value)
    ensures
        r == json_array_of(items@),
{
    serde_json::Value::Array(items)
}

/// Relies on `serde_json::from_str` into a `serde_json::Map`: the members of
/// the object that `text` holds, or nothing when it holds no JSON object.
#[verifier::external_body]
fn from_str_object(text: &str) -> (r: Option<Vec<(String, serde_json::Value)>>)
    ensures
        parsed_view(r) == parsed_object(text@),
{
    match serde_json::from_str::<serde_json::Map<String, serde_json::Value>>(text) {
        Ok(m) => Some(m.into_iter().collect()),
        Err(_) => None,
    }
}

/// The JSON string value holding `s`.
pub fn json_string(s: String) -> (r: serde_json::Value)
    ensures
        r == json_string_of(s@),
{
    value_from_string(s)
}

/// The JSON boolean value `b`.
pub fn json_bool(b: bool) -> (r: serde_json::Value)
    ensures
        r == json_bool_of(b),
{
    value_from_bool(b)
}

/// The JSON object with these members; where a name repeats, the last wins.
pub fn json_object(entries: Vec<(String, serde_json::Value)>) -> (r: serde_json::Value)
    ensures
        r == json_object_of(entries_view(entries@)),
{
    value_from_entries(entries)
}

/// The JSON array of these items, in order.
pub fn json_array(items: Vec<serde_json::Value>) -> (r: serde_json::Value)
    ensures
        r == json_array_of(items@),
{
    value_from_items(items)
}

/// The members of the JSON object in `text`, or `None` when `text` is not
/// a JSON object (malformed text included).
pub fn parse_properties(text: &str) -> (r: Option<Vec<(String, serde_json::Value)>>)
    ensures
        parsed_view(r) == parsed_object(text@),
{
    from_str_object(text)
}

/// The compact JSON text of `v`.
pub fn value_text(v: &serde_json::Value) -> (r: String)
    ensures
        r@ == json_text(*v),
{
    to_string_value(v).unwrap()
}

} // verus!
