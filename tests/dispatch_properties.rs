//! Response classification, error messages, request building and query strings.

use schlep_engine::DEFAULT_BASE_URL;
use schlep_engine::query::{decimal_text, list_path, query_string};
use schlep_engine::request::{Body, FieldValue, Request, Verb};
use schlep_engine::response::{api_error_message, handle_download, handle_response, is_success};
use schlep_engine::{Error, ListParams, SchlepClient};

const BASE: &str = "http://localhost:8080";

fn client() -> SchlepClient {
    SchlepClient::with_base_url("key-1", BASE).unwrap()
}

fn header<'a>(req: &'a Request, name: &str) -> Option<&'a str> {
    req.headers.iter().find(|(n, _)| n == name).map(|(_, v)| v.as_str())
}

fn api(r: Result<u32, Error>) -> (u16, String) {
    match r {
        Err(Error::Api { code, message }) => (code, message),
        other => panic!("expected an API error, got {:?}", other),
    }
}

#[test]
fn success_statuses_return_the_decoded_value() {
    assert_eq!(handle_response(200, "7", Ok::<u32, String>(7)).unwrap(), 7);
    assert_eq!(handle_response(204, "", Ok::<u32, String>(3)).unwrap(), 3);
    assert_eq!(handle_response(299, "{}", Ok::<u32, String>(9)).unwrap(), 9);
    assert!(is_success(200) && is_success(299));
    assert!(!is_success(199) && !is_success(300) && !is_success(404));
}

#[test]
fn failure_status_is_the_error_code_whatever_the_body() {
    assert_eq!(api(handle_response(199, "x", Ok(1))).0, 199);
    assert_eq!(api(handle_response(300, r#"{"message":"moved"}"#, Ok(1))).0, 300);
    assert_eq!(api(handle_response(404, "", Err("no".to_string()))).0, 404);
    assert_eq!(api(handle_response(503, "<html>down</html>", Ok(1))).0, 503);
}

#[test]
fn failure_message_member_is_the_message() {
    assert_eq!(api(handle_response(500, r#"{"message": "X"}"#, Ok(1))).1, "X");
    assert_eq!(api_error_message(r#"{"code":1,"message":"quota exceeded"}"#), "quota exceeded");
}

#[test]
fn failure_without_message_keeps_the_body() {
    assert_eq!(api(handle_response(502, "Bad Gateway", Ok(1))).1, "Bad Gateway");
    assert_eq!(api(handle_response(400, r#"{"error":"nope"}"#, Ok(1))).1, r#"{"error":"nope"}"#);
    assert_eq!(api(handle_response(400, r#"{"message":5}"#, Ok(1))).1, r#"{"message":5}"#);
    assert_eq!(api(handle_response(400, "[1,2]", Ok(1))).1, "[1,2]");
}

#[test]
fn failure_with_empty_body_is_unknown() {
    assert_eq!(api(handle_response(500, "", Ok(1))).1, "Unknown API error");
}

#[test]
fn undecodable_success_is_an_invalid_response() {
    let r = handle_response::<u32>(200, "not json", Err("expected value at line 1 column 1".to_string()));
    match r {
        Err(Error::InvalidResponse(m)) => {
            assert_eq!(m, "Failed to parse response: expected value at line 1 column 1")
        }
        other => panic!("expected an invalid response, got {:?}", other),
    }
}

#[test]
fn download_returns_raw_bytes_or_api_error() {
    assert_eq!(handle_download(200, vec![0, 255, 7], "").unwrap(), vec![0, 255, 7]);
    match handle_download(404, b"{\"message\":\"no file\"}".to_vec(), "{\"message\":\"no file\"}") {
        Err(Error::Api { code, message }) => {
            assert_eq!(code, 404);
            assert_eq!(message, "no file");
        }
        other => panic!("expected an API error, got {:?}", other),
    }
}

#[test]
fn same_call_twice_gives_equal_requests_and_outcomes() {
    let c = client();
    let a = c.status("job_1").unwrap();
    let b = c.status("job_1").unwrap();
    assert_eq!(a.verb, b.verb);
    assert_eq!(a.url, b.url);
    assert_eq!(a.headers, b.headers);
    let body = r#"{"message":"busy"}"#;
    assert_eq!(api(handle_response(429, body, Ok(1))), api(handle_response(429, body, Ok(1))));
}

#[test]
fn new_client_uses_default_base_url() {
    let c = SchlepClient::new("k").unwrap();
    let req = c.get("/monitoring/health").unwrap();
    assert_eq!(req.url, format!("{}/monitoring/health", DEFAULT_BASE_URL));
    assert_eq!(req.url, "https://api.schlep-engine.com/v1/monitoring/health");
}

#[test]
fn missing_key_variable_is_a_configuration_error() {
    match SchlepClient::from_env(None) {
        Err(Error::Config(m)) => assert_eq!(m, "SCHLEP_API_KEY environment variable not set"),
        _ => panic!("expected a configuration error"),
    }
    assert!(matches!(SchlepClient::from_env(Some("")), Err(Error::Config(_))));
    assert!(matches!(SchlepClient::with_base_url("", BASE), Err(Error::Config(_))));
}

#[test]
fn key_that_cannot_stand_in_a_header_is_refused_per_request() {
    let c = SchlepClient::with_base_url("bad\nkey", BASE).unwrap();
    match c.get("/x") {
        Err(Error::Config(m)) => assert_eq!(m, "Invalid API key format: failed to parse header value"),
        other => panic!("expected a configuration error, got {:?}", other),
    }
    let tab = SchlepClient::with_base_url("a\tb", BASE).unwrap();
    assert_eq!(header(&tab.get("/x").unwrap(), "authorization"), Some("Bearer a\tb"));
    let accented = SchlepClient::with_base_url("clé", BASE).unwrap();
    assert!(accented.get("/x").is_ok());
}

#[test]
fn multipart_requests_carry_only_the_auth_header() {
    let c = client();
    let req = c.data().process_file(&[1, 2, 3], "csv").unwrap();
    assert_eq!(req.verb, Verb::Post);
    assert_eq!(req.url, format!("{}/data/process", BASE));
    assert_eq!(req.headers, vec![("authorization".to_string(), "Bearer key-1".to_string())]);
    match &req.body {
        Body::Multipart(form) => {
            assert_eq!(form.file.name, "file");
            assert_eq!(form.file.bytes, vec![1, 2, 3]);
            assert_eq!(form.file.file_name, "upload");
            assert_eq!(form.file.mime, "application/octet-stream");
            assert_eq!(form.texts, vec![("format".to_string(), "csv".to_string())]);
        }
        _ => panic!("expected a multipart body"),
    }
    let ocr = c.document().ocr(&[9], None).unwrap();
    match &ocr.body {
        Body::Multipart(form) => {
            assert_eq!(form.file.file_name, "image");
            assert!(form.texts.is_empty());
        }
        _ => panic!("expected a multipart body"),
    }
    let stored = c.storage().upload_file(&[4], "data.csv").unwrap();
    match &stored.body {
        Body::Multipart(form) => assert_eq!(form.file.file_name, "data.csv"),
        _ => panic!("expected a multipart body"),
    }
}

#[test]
fn json_requests_carry_auth_and_content_type() {
    let req = client().users().get_profile().unwrap();
    assert_eq!(
        req.headers,
        vec![
            ("authorization".to_string(), "Bearer key-1".to_string()),
            ("content-type".to_string(), "application/json".to_string()),
        ]
    );
}

#[test]
fn facade_paths_and_verbs() {
    let c = client();
    let cases: Vec<(Request, Verb, &str)> = vec![
        (c.data().get_job("j1").unwrap(), Verb::Get, "/data/jobs/j1"),
        (c.ml().get_pipeline("p1").unwrap(), Verb::Get, "/ml/pipelines/p1"),
        (c.ml().get_training_job("t1").unwrap(), Verb::Get, "/ml/training/t1"),
        (c.analytics().get_report("r1").unwrap(), Verb::Get, "/analytics/reports/r1"),
        (c.analytics().get_dataset("d1").unwrap(), Verb::Get, "/analytics/datasets/d1"),
        (c.quality().assess_quality("j2").unwrap(), Verb::Get, "/quality/assess/j2"),
        (c.storage().download_file("f1").unwrap(), Verb::Get, "/storage/files/f1/download"),
        (c.storage().delete_file("f1").unwrap(), Verb::Delete, "/storage/files/f1"),
        (c.monitoring().get_health().unwrap(), Verb::Get, "/monitoring/health"),
        (c.monitoring().list_alerts().unwrap(), Verb::Get, "/monitoring/alerts"),
        (c.users().list_api_keys().unwrap(), Verb::Get, "/users/api-keys"),
        (c.users().revoke_api_key("k9").unwrap(), Verb::Delete, "/users/api-keys/k9"),
        (c.users().update_profile(serde_json::Value::Null).unwrap(), Verb::Put, "/users/profile"),
        (c.admin().get_system_stats().unwrap(), Verb::Get, "/admin/stats"),
    ];
    for (req, verb, path) in cases {
        assert_eq!(req.verb, verb);
        assert_eq!(req.url, format!("{}{}", BASE, path));
    }
}

#[test]
fn object_bodies_hold_their_members_in_order() {
    let c = client();
    let req = c.ml().deploy_model("m1", None).unwrap();
    match &req.body {
        Body::Object(fields) => {
            assert_eq!(fields.len(), 2);
            assert_eq!(fields[0].0, "model_id");
            assert!(matches!(&fields[0].1, FieldValue::Str(s) if s == "m1"));
            assert_eq!(fields[1].0, "config");
            assert!(matches!(&fields[1].1, FieldValue::EmptyObject));
        }
        _ => panic!("expected an object body"),
    }
    let rules = vec!["r1".to_string(), "r2".to_string()];
    let req = c.quality().validate_data("j1", rules.clone()).unwrap();
    match &req.body {
        Body::Object(fields) => {
            assert_eq!(fields[1].0, "rules");
            assert!(matches!(&fields[1].1, FieldValue::StrList(l) if *l == rules));
        }
        _ => panic!("expected an object body"),
    }
    let req = c.users().create_api_key("Production Key").unwrap();
    match &req.body {
        Body::Object(fields) => {
            assert_eq!(fields[0].0, "name");
            assert!(matches!(&fields[0].1, FieldValue::Str(s) if s == "Production Key"));
        }
        _ => panic!("expected an object body"),
    }
}

#[test]
fn list_paths_without_parameters_stay_unchanged() {
    assert_eq!(list_path("/data/jobs", None), "/data/jobs");
    assert_eq!(list_path("/data/jobs", Some(ListParams::default())), "/data/jobs");
    let req = client().storage().list_files(None).unwrap();
    assert_eq!(req.url, format!("{}/storage/files", BASE));
}

#[test]
fn list_paths_join_set_parameters_in_order() {
    let all = ListParams { page: Some(1), page_size: Some(20), status: Some("completed".to_string()) };
    assert_eq!(list_path("/data/jobs", Some(all)), "/data/jobs?page=1&page_size=20&status=completed");
    let some = ListParams { page: None, page_size: Some(50), status: Some("active".to_string()) };
    let req = client().admin().list_users(Some(some)).unwrap();
    assert_eq!(req.url, format!("{}/admin/users?page_size=50&status=active", BASE));
    let status_only = ListParams { page: None, page_size: None, status: Some("a&b".to_string()) };
    assert_eq!(query_string(&status_only), "status=a&b");
    let req = client().ml().list_pipelines(Some(ListParams { page: Some(3), ..Default::default() })).unwrap();
    assert_eq!(req.url, format!("{}/ml/pipelines?page=3", BASE));
}

#[test]
fn decimal_text_of_edge_values() {
    assert_eq!(decimal_text(0), "0");
    assert_eq!(decimal_text(9), "9");
    assert_eq!(decimal_text(10), "10");
    assert_eq!(decimal_text(4294967295), "4294967295");
}

#[test]
fn stream_address_swaps_the_scheme() {
    let secure = SchlepClient::new("k").unwrap();
    assert_eq!(secure.stream_address(), "wss://api.schlep-engine.com/v1/stream");
    assert_eq!(client().stream_address(), "ws://localhost:8080/stream");
    let url = client().stream_url().unwrap();
    assert_eq!(url.as_str(), "ws://localhost:8080/stream");
    let odd = SchlepClient::with_base_url("k", "not a url").unwrap();
    assert!(matches!(odd.stream_url(), Err(Error::UrlParse(_))));
}

#[test]
fn subscription_carries_events_and_key() {
    let events: serde_json::Value =
        serde_json::from_str(r#"{"event_types":["training","deployment"],"filters":{}}"#).unwrap();
    let s = client().subscription(events.clone());
    assert_eq!(s.action, "subscribe");
    assert_eq!(s.events, events);
    assert_eq!(s.api_key, "key-1");
}
