//! Immediate capture: one event, its properties merged over the library's
//! defaults, written as one request with no buffering.
use crate::client::OutgoingRequest;
use crate::json::{
    entries_view, json_bool, json_bool_of, json_object, json_object_of, json_string, json_string_of, json_text,
    parse_properties, parsed_object, parsed_view, value_text,
};
use crate::properties::{index_of, merge_json_values, set_all, Entries, Properties};
use vstd::prelude::*;
use vstd::string::StringExecFns;
use vstd::utf8::{decode_utf8, valid_utf8};

verus! {

/// The library name reported with every immediate event.
pub const LIB_NAME: &'static str = "posthog-wasm";

/// The library version reported with every immediate event.
pub const LIB_VERSION: &'static str = "0.1.0";

/// The properties every immediate event starts from.
pub open spec fn default_entries() -> Entries {
    seq![
        ("$lib"@, json_string_of(LIB_NAME@)),
        ("$lib_version"@, json_string_of(LIB_VERSION@)),
        ("$geoip_disabled"@, json_bool_of(true)),
    ]
}

/// The caller's properties as given: those of the JSON object, or none.
pub open spec fn user_entries(user: Option<Entries>) -> Entries {
    match user {
        Some(s) => set_all(Seq::empty(), s),
        None => Seq::empty(),
    }
}

/// The properties sent: the defaults with the caller's set over them.
pub open spec fn capture_entries(user: Option<Entries>) -> Entries {
    set_all(default_entries(), user_entries(user))
}

/// The JSON object of one immediate event.
pub open spec fn capture_value(api_key: Seq<char>, event: Seq<char>, distinct_id: Seq<char>, props: Entries) -> serde_json::Value {
    json_object_of(
        seq![
            ("api_key"@, json_string_of(api_key)),
            ("event"@, json_string_of(event)),
            ("distinct_id"@, json_string_of(distinct_id)),
            ("properties"@, json_object_of(props)),
        ],
    )
}

/// The JSON text of one immediate event.
pub open spec fn capture_text(api_key: Seq<char>, event: Seq<char>, distinct_id: Seq<char>, props: Entries) -> Seq<char> {
    json_text(capture_value(api_key, event, distinct_id, props))
}

/// Properties text that is no JSON object leaves the defaults alone.
pub proof fn lemma_malformed_properties(text: Seq<char>)
    requires
        parsed_object(text) is None,
    ensures
        capture_entries(parsed_object(text)) == default_entries(),
{
    assert(set_all(default_entries(), Seq::empty()) == default_entries());
}

/// The text `bytes` decode to, or `fallback` where they are not UTF-8.
pub open spec fn text_or(bytes: Seq<u8>, fallback: Seq<char>) -> Seq<char> {
    if valid_utf8(bytes) {
        decode_utf8(bytes)
    } else {
        fallback
    }
}

/// Relies on `std::str::from_utf8`: it succeeds exactly on valid UTF-8,
/// whose characters it gives.
#[verifier::external_body]
fn from_utf8(bytes: &[u8]) -> (r: Option<String>)
    ensures
        r is Some == valid_utf8(bytes@),
        r matches Some(s) ==> s@ == decode_utf8(bytes@),
{
    match std::str::from_utf8(bytes) {
        Ok(s) => Some(s.to_string()),
        Err(_) => None,
    }
}

/// The text of `bytes`, or `fallback` where they are not UTF-8.
pub fn decode_or(bytes: &[u8], fallback: &str) -> (r: String)
    ensures
        r@ == text_or(bytes@, fallback@),
{
    match from_utf8(bytes) {
        Some(s) => s,
        None => <String as StringExecFns>::from_str(fallback),
    }
}

/// The library's default properties.
pub fn default_properties() -> (r: Properties)
    ensures
        r.wf(),
        r@ == default_entries(),
{
    let ghost e0 = ("$lib"@, json_string_of(LIB_NAME@));
    let ghost e1 = ("$lib_version"@, json_string_of(LIB_VERSION@));
    let ghost e2 = ("$geoip_disabled"@, json_bool_of(true));
    let ghost empty = Seq::<(Seq<char>, serde_json::Value)>::empty();
    proof {
        reveal_strlit("$lib");
        reveal_strlit("$lib_version");
        reveal_strlit("$geoip_disabled");
    }
    let mut r = Properties::new();
    r.insert(<String as StringExecFns>::from_str("$lib"), json_string(<String as StringExecFns>::from_str(LIB_NAME)));
    assert(r@ =~= seq![e0]);
    assert(seq![e0].drop_last() =~= empty);
    assert(e0.0.len() == 4 && e1.0.len() == 12 && e2.0.len() == 15);
    assert(seq![e0].last() == e0 && seq![e0, e1].last() == e1);
    assert(index_of(empty, e1.0) == -1 && index_of(empty, e2.0) == -1);
    assert(index_of(seq![e0], e1.0) == -1);
    r.insert(<String as StringExecFns>::from_str("$lib_version"), json_string(<String as StringExecFns>::from_str(LIB_VERSION)));
    assert(r@ =~= seq![e0, e1]);
    assert(seq![e0, e1].drop_last() =~= seq![e0]);
    assert(index_of(seq![e0], e2.0) == -1);
    assert(index_of(seq![e0, e1], e2.0) == -1);
    r.insert(<String as StringExecFns>::from_str("$geoip_disabled"), json_bool(true));
    assert(r@ =~= default_entries());
    r
}

/// The properties to send: the defaults, with the caller's entries set over
/// them; the defaults alone where the caller gave no object.
pub fn capture_properties(user: Option<Vec<(String, serde_json::Value)>>) -> (r: Properties)
    ensures
        r.wf(),
        r@ == capture_entries(parsed_view(user)),
        user is None ==> r@ == default_entries(),
{
    let defaults = default_properties();
    match user {
        Some(v) => {
            let given = Properties::from_entries(v);
            merge_json_values(defaults, given)
        },
        None => {
            assert(set_all(default_entries(), Seq::empty()) == default_entries());
            defaults
        },
    }
}

/// The JSON text of one immediate event.
pub fn capture_body(api_key: &str, event: &str, distinct_id: &str, props: Properties) -> (r: String)
    ensures
        r@ == capture_text(api_key@, event@, distinct_id@, props@),
{
    let ghost pv = props@;
    let mut members: Vec<(String, serde_json::Value)> = Vec::new();
    members.push((<String as StringExecFns>::from_str("api_key"), json_string(<String as StringExecFns>::from_str(api_key))));
    members.push((<String as StringExecFns>::from_str("event"), json_string(<String as StringExecFns>::from_str(event))));
    members.push((<String as StringExecFns>::from_str("distinct_id"), json_string(<String as StringExecFns>::from_str(distinct_id))));
    members.push((<String as StringExecFns>::from_str("properties"), json_object(props.into_entries())));
    assert(entries_view(members@) =~= seq![
        ("api_key"@, json_string_of(api_key@)),
        ("event"@, json_string_of(event@)),
        ("distinct_id"@, json_string_of(distinct_id@)),
        ("properties"@, json_object_of(pv)),
    ]);
    value_text(&json_object(members))
}

/// The request for one immediate event, given the caller's properties as
/// parsed: a POST to `/capture` whose body is the event with its merged
/// properties.
pub fn send_event(event_name: &str, distinct_id: &str, api_key: &str, user: Option<Vec<(String, serde_json::Value)>>) -> (r: OutgoingRequest)
    ensures
        r.url@ == "/capture"@,
        r.method@ == "POST"@,
        r.content_type is None,
        r.body@ == capture_text(api_key@, event_name@, distinct_id@, capture_entries(parsed_view(user))),
{
    let props = capture_properties(user);
    let body = capture_body(api_key, event_name, distinct_id, props);
    OutgoingRequest {
        url: <String as StringExecFns>::from_str("/capture"),
        method: <String as StringExecFns>::from_str("POST"),
        content_type: None,
        body,
    }
}

/// The request for one immediate event from raw caller bytes. Text that is
/// not UTF-8 falls back to `unknown_event`, `unknown_distinct_id`, an empty
/// API key, and `{}` for the properties; properties that are not a JSON
/// object count as none.
pub fn capture(event_name: &[u8], distinct_id: &[u8], api_key: &[u8], properties: &[u8]) -> (r: OutgoingRequest)
    ensures
        r.url@ == "/capture"@,
        r.method@ == "POST"@,
        r.content_type is None,
        r.body@ == capture_text(
            text_or(api_key@, ""@),
            text_or(event_name@, "unknown_event"@),
            text_or(distinct_id@, "unknown_distinct_id"@),
            capture_entries(parsed_object(text_or(properties@, "{}"@))),
        ),
{
    let name = decode_or(event_name, "unknown_event");
    let id = decode_or(distinct_id, "unknown_distinct_id");
    let key = decode_or(api_key, "");
    let text = decode_or(properties, "{}");
    let user = parse_properties(text.as_str());
    send_event(name.as_str(), id.as_str(), key.as_str(), user)
}

} // verus!
