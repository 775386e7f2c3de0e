use posthog_wasm::{
    capture, capture_body, decode_or, json_array, json_bool, json_object, json_string, default_properties, merge_json_values,
    parse_properties, send_event, value_text, BatchBody, ClientError, ClientRegistry,
    HttpResponse, PosthogClient, PosthogClientConfig, PosthogEvent, Properties,
};
use serde_json::Value;

fn props(entries: Vec<(&str, Value)>) -> Properties {
    let mut p = Properties::new();
    for (k, v) in entries {
        p.insert(k.to_string(), v);
    }
    p
}

fn entries(p: &Properties) -> Vec<(String, Value)> {
    (0..p.len()).map(|i| {
        let (k, v) = p.entry(i);
        (k.clone(), v.clone())
    }).collect()
}

fn event(name: &str, n: i64) -> PosthogEvent {
    PosthogEvent::new(name.to_string(), props(vec![("n", Value::from(n))]))
}

fn config(key: &str, host: &str) -> PosthogClientConfig {
    PosthogClientConfig::new(key.to_string(), host.to_string())
}

fn batch_names(body: &str) -> Vec<String> {
    let v: Value = serde_json::from_str(body).unwrap();
    v["batch"].as_array().unwrap().iter().map(|e| e["event"].as_str().unwrap().to_string()).collect()
}

#[test]
fn it_works() {
    let result = posthog_wasm::add(2, 2);
    assert_eq!(result, 4);
}

#[test]
fn merge_override_wins() {
    let a = props(vec![("$lib", Value::from("x")), ("$geoip_disabled", Value::Bool(true))]);
    let b = props(vec![("$geoip_disabled", Value::Bool(false)), ("custom", Value::from("v"))]);
    let m = merge_json_values(a, b);
    assert_eq!(
        entries(&m),
        vec![
            ("$lib".to_string(), Value::from("x")),
            ("$geoip_disabled".to_string(), Value::Bool(false)),
            ("custom".to_string(), Value::from("v")),
        ]
    );
}

#[test]
fn merge_with_empty_sides() {
    let a = props(vec![("k", Value::from(1))]);
    let m = merge_json_values(a, Properties::new());
    assert_eq!(entries(&m), vec![("k".to_string(), Value::from(1))]);
    let m2 = merge_json_values(Properties::new(), props(vec![("j", Value::Null)]));
    assert_eq!(entries(&m2), vec![("j".to_string(), Value::Null)]);
}

#[test]
fn insert_replaces_in_place() {
    let mut p = props(vec![("a", Value::from(1)), ("b", Value::from(2))]);
    p.insert("a".to_string(), Value::from(3));
    assert_eq!(p.len(), 2);
    assert_eq!(p.get("a"), Some(&Value::from(3)));
    assert_eq!(p.get("b"), Some(&Value::from(2)));
    assert_eq!(p.get("c"), None);
    let (k, _) = p.entry(0);
    assert_eq!(k, "a");
}

#[test]
fn from_entries_last_wins() {
    let p = Properties::from_entries(vec![
        ("x".to_string(), Value::from(1)),
        ("y".to_string(), Value::from(2)),
        ("x".to_string(), Value::from(9)),
    ]);
    assert_eq!(entries(&p), vec![("x".to_string(), Value::from(9)), ("y".to_string(), Value::from(2))]);
}

#[test]
fn registry_capture_order() {
    let mut reg = ClientRegistry::new(4);
    let h = reg.create_client(config("key", "https://h")).unwrap();
    assert_eq!(h, 0);
    reg.capture(h, event("e1", 1)).unwrap();
    reg.capture(h, event("e2", 2)).unwrap();
    reg.capture(h, event("e3", 3)).unwrap();
    let req = reg.flush(h).unwrap();
    assert_eq!(batch_names(&req.body), vec!["e1", "e2", "e3"]);
}

#[test]
fn second_flush_sends_empty_batch() {
    let mut reg = ClientRegistry::new(4);
    let h = reg.create_client(config("key", "https://h")).unwrap();
    reg.capture(h, event("e1", 1)).unwrap();
    let first = reg.flush(h).unwrap();
    assert_eq!(batch_names(&first.body).len(), 1);
    let second = reg.flush(h).unwrap();
    assert_eq!(second.body, "{\"api_key\":\"key\",\"batch\":[],\"historical_migration\":false}");
}

#[test]
fn handles_are_isolated() {
    let mut reg = ClientRegistry::new(4);
    let a = reg.create_client(config("ka", "https://a")).unwrap();
    let b = reg.create_client(config("kb", "https://b")).unwrap();
    assert_eq!((a, b), (0, 1));
    reg.capture(a, event("only_a", 1)).unwrap();
    reg.capture(b, event("only_b", 2)).unwrap();
    let rb = reg.flush(b).unwrap();
    assert_eq!(batch_names(&rb.body), vec!["only_b"]);
    assert_eq!(rb.url, "https://b/batch");
    let ra = reg.flush(a).unwrap();
    assert_eq!(batch_names(&ra.body), vec!["only_a"]);
}

#[test]
fn unknown_handle_is_rejected() {
    let mut reg = ClientRegistry::new(4);
    assert_eq!(reg.capture(0, event("e", 1)), Err(ClientError::HandleNotFound));
    assert!(matches!(reg.flush(0), Err(ClientError::HandleNotFound)));
    let h = reg.create_client(config("k", "h")).unwrap();
    assert_eq!(reg.capture(h + 1, event("e", 1)), Err(ClientError::HandleNotFound));
    assert!(matches!(reg.flush(7), Err(ClientError::HandleNotFound)));
}

#[test]
fn capacity_is_enforced() {
    let mut reg = ClientRegistry::new(1);
    assert_eq!(reg.create_client(config("k", "h")), Ok(0));
    assert_eq!(reg.create_client(config("k2", "h2")), Err(ClientError::CapacityReached));
    assert_eq!(reg.len(), 1);
}

#[test]
fn client_flush_request() {
    let mut c = PosthogClient::new(config("phc_key", "https://eu.example.com"));
    c.capture(PosthogEvent::new("signup".to_string(), props(vec![("plan", Value::from("pro"))])));
    assert_eq!(c.pending(), 1);
    let req = c.flush();
    assert_eq!(c.pending(), 0);
    assert_eq!(req.url, "https://eu.example.com/batch");
    assert_eq!(req.method, "POST");
    assert_eq!(req.content_type.as_deref(), Some("application/json"));
    assert_eq!(
        req.body,
        "{\"api_key\":\"phc_key\",\"batch\":[{\"event\":\"signup\",\"properties\":{\"plan\":\"pro\"}}],\"historical_migration\":false}"
    );
}

#[test]
fn batch_round_trip() {
    let body = BatchBody {
        api_key: "k\"ey".to_string(),
        historical_migration: false,
        batch: vec![event("a", 1), event("b", 2)],
    };
    let text = body.to_json();
    let v: Value = serde_json::from_str(&text).unwrap();
    assert_eq!(v["api_key"], Value::from("k\"ey"));
    assert_eq!(v["historical_migration"], Value::Bool(false));
    let batch = v["batch"].as_array().unwrap();
    assert_eq!(batch.len(), 2);
    assert_eq!(batch[0]["event"], Value::from("a"));
    assert_eq!(batch[0]["properties"]["n"], Value::from(1));
    assert_eq!(batch[1]["event"], Value::from("b"));
    assert_eq!(batch[1]["properties"]["n"], Value::from(2));
}

#[test]
fn drain_batch_takes_everything() {
    let mut c = PosthogClient::new(config("k", "h"));
    c.capture(event("x", 1));
    c.capture(event("y", 2));
    let b = c.drain_batch();
    assert_eq!(b.api_key, "k");
    assert!(!b.historical_migration);
    assert_eq!(b.batch.iter().map(|e| e.event().clone()).collect::<Vec<_>>(), vec!["x", "y"]);
    assert_eq!(c.pending(), 0);
}

#[test]
fn malformed_properties_give_defaults() {
    let req = capture(b"ev", b"user", b"key", b"not json");
    let v: Value = serde_json::from_str(&req.body).unwrap();
    let p = v["properties"].as_object().unwrap();
    assert_eq!(p.len(), 3);
    assert_eq!(p["$lib"], Value::from("posthog-wasm"));
    assert_eq!(p["$lib_version"], Value::from("0.1.0"));
    assert_eq!(p["$geoip_disabled"], Value::Bool(true));
}

#[test]
fn non_object_properties_give_defaults() {
    let req = capture(b"ev", b"user", b"key", b"[1,2]");
    let v: Value = serde_json::from_str(&req.body).unwrap();
    assert_eq!(v["properties"].as_object().unwrap().len(), 3);
}

#[test]
fn caller_properties_override_defaults() {
    let req = capture(b"ev", b"user", b"key", b"{\"$geoip_disabled\":false,\"plan\":\"pro\"}");
    assert_eq!(req.url, "/capture");
    assert_eq!(req.method, "POST");
    assert_eq!(req.content_type, None);
    let v: Value = serde_json::from_str(&req.body).unwrap();
    assert_eq!(v["api_key"], Value::from("key"));
    assert_eq!(v["event"], Value::from("ev"));
    assert_eq!(v["distinct_id"], Value::from("user"));
    let p = v["properties"].as_object().unwrap();
    assert_eq!(p.len(), 4);
    assert_eq!(p["$geoip_disabled"], Value::Bool(false));
    assert_eq!(p["plan"], Value::from("pro"));
    assert_eq!(p["$lib"], Value::from("posthog-wasm"));
}

#[test]
fn invalid_utf8_falls_back() {
    let req = capture(&[0xff, 0xfe], &[0xc3], &[0x80], &[0xff]);
    let v: Value = serde_json::from_str(&req.body).unwrap();
    assert_eq!(v["event"], Value::from("unknown_event"));
    assert_eq!(v["distinct_id"], Value::from("unknown_distinct_id"));
    assert_eq!(v["api_key"], Value::from(""));
    assert_eq!(v["properties"].as_object().unwrap().len(), 3);
}

#[test]
fn capture_body_exact_text() {
    let p = props(vec![("a", Value::from(1))]);
    let t = capture_body("k", "e", "d", p);
    assert_eq!(t, "{\"api_key\":\"k\",\"distinct_id\":\"d\",\"event\":\"e\",\"properties\":{\"a\":1}}");
}

#[test]
fn send_event_without_user_properties() {
    let req = send_event("e", "d", "k", None);
    let v: Value = serde_json::from_str(&req.body).unwrap();
    assert_eq!(v["properties"].as_object().unwrap().len(), 3);
}

#[test]
fn default_properties_values() {
    let d = default_properties();
    assert_eq!(
        entries(&d),
        vec![
            ("$lib".to_string(), Value::from("posthog-wasm")),
            ("$lib_version".to_string(), Value::from("0.1.0")),
            ("$geoip_disabled".to_string(), Value::Bool(true)),
        ]
    );
}

#[test]
fn parse_properties_cases() {
    assert_eq!(parse_properties("{\"a\":1}"), Some(vec![("a".to_string(), Value::from(1))]));
    assert_eq!(parse_properties("{}"), Some(vec![]));
    assert_eq!(parse_properties("3"), None);
    assert_eq!(parse_properties("{oops"), None);
}

#[test]
fn value_text_cases() {
    assert_eq!(value_text(&json_string("a\"b\\c".to_string())), "\"a\\\"b\\\\c\"");
    assert_eq!(value_text(&json_string(String::new())), "\"\"");
    assert_eq!(value_text(&json_bool(true)), "true");
    assert_eq!(value_text(&Value::from(vec![1, 2])), "[1,2]");
}

#[test]
fn value_builders() {
    let o = json_object(vec![
        ("b".to_string(), Value::from(1)),
        ("a".to_string(), Value::from(2)),
        ("b".to_string(), Value::from(3)),
    ]);
    assert_eq!(value_text(&o), "{\"a\":2,\"b\":3}");
    assert_eq!(value_text(&json_object(vec![])), "{}");
    let arr = json_array(vec![Value::from("x"), Value::Null, json_bool(false)]);
    assert_eq!(value_text(&arr), "[\"x\",null,false]");
    assert_eq!(value_text(&json_array(vec![])), "[]");
}

#[test]
fn event_to_json_exact() {
    let e = PosthogEvent::new("a\"b".to_string(), props(vec![("y", Value::from("z")), ("x", Value::Null)]));
    assert_eq!(e.to_json(), "{\"event\":\"a\\\"b\",\"properties\":{\"x\":null,\"y\":\"z\"}}");
    let empty = PosthogEvent::new("n".to_string(), Properties::new());
    assert_eq!(empty.into_value(), serde_json::from_str::<Value>("{\"event\":\"n\",\"properties\":{}}").unwrap());
}

#[test]
fn decode_or_cases() {
    assert_eq!(decode_or("héllo".as_bytes(), "fb"), "héllo");
    assert_eq!(decode_or(&[0xff], "fb"), "fb");
    assert_eq!(decode_or(&[], "fb"), "");
}

#[test]
fn http_response_status() {
    let r = HttpResponse::new(204, vec![]);
    assert!(r.is_success());
    assert!(!HttpResponse::new(404, b"nf".to_vec()).is_success());
    assert_eq!(HttpResponse::new(200, b"ok".to_vec()).body, b"ok".to_vec());
}

#[test]
fn send_event_exact_body() {
    let user = vec![("$geoip_disabled".to_string(), Value::Bool(false)), ("custom".to_string(), Value::from("v"))];
    let req = send_event("e", "d", "k", Some(user));
    assert_eq!(
        req.body,
        "{\"api_key\":\"k\",\"distinct_id\":\"d\",\"event\":\"e\",\"properties\":{\"$geoip_disabled\":false,\"$lib\":\"posthog-wasm\",\"$lib_version\":\"0.1.0\",\"custom\":\"v\"}}"
    );
    assert_eq!(req.body, send_event("e", "d", "k", Some(vec![("$geoip_disabled".to_string(), Value::Bool(false)), ("custom".to_string(), Value::from("v"))])).body);
}

#[test]
fn capture_signup_example() {
    let req = capture(b"signup", b"u1", b"k", b"not json");
    let v: Value = serde_json::from_str(&req.body).unwrap();
    let expected: Value = serde_json::from_str(
        "{\"api_key\":\"k\",\"event\":\"signup\",\"distinct_id\":\"u1\",\"properties\":{\"$lib\":\"posthog-wasm\",\"$lib_version\":\"0.1.0\",\"$geoip_disabled\":true}}",
    )
    .unwrap();
    assert_eq!(v, expected);
}
