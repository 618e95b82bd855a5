//! End-to-end calls through the client: the request that is built, then the
//! classification of the server's answer.

use schlep_engine::request::{Body, FieldValue, Request, Verb};
use schlep_engine::response::handle_response;
use schlep_engine::{DeployResponse, Error, SchlepClient, TrainResponse, UploadResponse};
use serde_json::Value;

const BASE: &str = "http://127.0.0.1:1234";

fn json(text: &str) -> Value {
    serde_json::from_str(text).unwrap()
}

fn text(v: &Value, key: &str) -> String {
    v[key].as_str().unwrap().to_string()
}

fn opt_text(v: &Value, key: &str) -> Option<String> {
    v[key].as_str().map(|s| s.to_string())
}

fn header<'a>(req: &'a Request, name: &str) -> Option<&'a str> {
    req.headers.iter().find(|(n, _)| n == name).map(|(_, v)| v.as_str())
}

fn str_member<'a>(body: &'a Body, key: &str) -> Option<&'a str> {
    match body {
        Body::Object(fields) => fields.iter().find(|(k, _)| k == key).and_then(|(_, v)| match v {
            FieldValue::Str(s) => Some(s.as_str()),
            _ => None,
        }),
        _ => None,
    }
}

#[test]
fn test_upload_success() {
    let client = SchlepClient::with_base_url("test-api-key", BASE).unwrap();
    let req = client.upload("test data").unwrap();
    assert_eq!(req.verb, Verb::Post);
    assert_eq!(req.url, format!("{}/upload", BASE));
    assert_eq!(header(&req, "authorization"), Some("Bearer test-api-key"));
    assert_eq!(header(&req, "content-type"), Some("application/json"));
    assert_eq!(str_member(&req.body, "data"), Some("test data"));

    let body = r#"{"job_id":"upload_123","status":"processing","message":"Upload successful"}"#;
    let v = json(body);
    let decoded = UploadResponse {
        job_id: text(&v, "job_id"),
        status: text(&v, "status"),
        message: opt_text(&v, "message"),
    };
    let result = handle_response(200, body, Ok(decoded)).unwrap();

    assert_eq!(result.job_id, "upload_123");
    assert_eq!(result.status, "processing");
    assert_eq!(result.message, Some("Upload successful".to_string()));
}

#[test]
fn test_train_pipeline() {
    let client = SchlepClient::with_base_url("test-api-key", BASE).unwrap();
    let config = json(r#"{"model_type":"classification","dataset_id":"upload_123"}"#);
    let req = client.train(config.clone()).unwrap();
    assert_eq!(req.verb, Verb::Post);
    assert_eq!(req.url, format!("{}/train", BASE));
    assert_eq!(header(&req, "authorization"), Some("Bearer test-api-key"));
    assert_eq!(header(&req, "content-type"), Some("application/json"));
    match &req.body {
        Body::Json(sent) => assert_eq!(sent, &config),
        _ => panic!("expected a JSON body"),
    }

    let body = r#"{"job_id":"train_456","model_id":"model_789","status":"training","message":"Training started"}"#;
    let v = json(body);
    let decoded = TrainResponse {
        job_id: text(&v, "job_id"),
        model_id: opt_text(&v, "model_id"),
        status: text(&v, "status"),
        message: opt_text(&v, "message"),
    };
    let result = handle_response(200, body, Ok(decoded)).unwrap();

    assert_eq!(result.job_id, "train_456");
    assert_eq!(result.model_id, Some("model_789".to_string()));
    assert_eq!(result.status, "training");
}

#[test]
fn test_deploy_returns_endpoint() {
    let client = SchlepClient::with_base_url("test-api-key", BASE).unwrap();
    let req = client.deploy("model_789").unwrap();
    assert_eq!(req.verb, Verb::Post);
    assert_eq!(req.url, format!("{}/deploy", BASE));
    assert_eq!(header(&req, "authorization"), Some("Bearer test-api-key"));
    assert_eq!(header(&req, "content-type"), Some("application/json"));
    assert_eq!(str_member(&req.body, "model_id"), Some("model_789"));

    let body = r#"{"deployment_id":"deploy_101","endpoint_url":"https://api.schlep-engine.com/models/model_789/predict","status":"deployed","message":"Model deployed successfully"}"#;
    let v = json(body);
    let decoded = DeployResponse {
        deployment_id: text(&v, "deployment_id"),
        endpoint_url: text(&v, "endpoint_url"),
        status: text(&v, "status"),
        message: opt_text(&v, "message"),
    };
    let result = handle_response(200, body, Ok(decoded)).unwrap();

    assert_eq!(result.deployment_id, "deploy_101");
    assert_eq!(result.endpoint_url, "https://api.schlep-engine.com/models/model_789/predict");
    assert_eq!(result.status, "deployed");
}

#[test]
fn test_status_check() {
    let client = SchlepClient::with_base_url("test-api-key", BASE).unwrap();
    let req = client.status("job_123").unwrap();
    assert_eq!(req.verb, Verb::Get);
    assert_eq!(req.url, format!("{}/status/job_123", BASE));
    assert_eq!(header(&req, "authorization"), Some("Bearer test-api-key"));
    assert!(matches!(req.body, Body::Empty));

    let body = r#"{"job_id":"job_123","status":"completed","progress":100.0,"result":{"output":"Job completed successfully"},"created_at":"2024-01-01T00:00:00Z","updated_at":"2024-01-01T01:00:00Z"}"#;
    let decoded: Result<Value, String> = serde_json::from_str(body).map_err(|e| e.to_string());
    let result = handle_response(200, body, decoded).unwrap();

    assert_eq!(text(&result, "job_id"), "job_123");
    assert_eq!(text(&result, "status"), "completed");
    assert_eq!(result["progress"].as_f64().map(|p| p as f32), Some(100.0));
    assert!(result["result"].is_object());
}

#[test]
fn test_invalid_api_key() {
    let client = SchlepClient::with_base_url("invalid-key", BASE).unwrap();
    let req = client.upload("test data").unwrap();
    assert_eq!(header(&req, "authorization"), Some("Bearer invalid-key"));
    assert_eq!(header(&req, "content-type"), Some("application/json"));

    let body = r#"{"message":"Invalid API key"}"#;
    let result = handle_response::<UploadResponse>(401, body, Err("missing field `job_id`".to_string()));

    assert!(result.is_err());
    match result.unwrap_err() {
        Error::Api { code, message } => {
            assert_eq!(code, 401);
            assert_eq!(message, "Invalid API key");
        }
        _ => panic!("Expected API error"),
    }
}

#[test]
fn test_client_creation_from_env() {
    let client = SchlepClient::from_env(Some("env-api-key")).unwrap();
    let req = client.get("/x").unwrap();
    assert_eq!(header(&req, "authorization"), Some("Bearer env-api-key"));
}

#[test]
fn test_client_creation_empty_api_key() {
    let result = SchlepClient::new("");
    assert!(result.is_err());
    match result.unwrap_err() {
        Error::Config(msg) => assert!(msg.contains("API key cannot be empty")),
        _ => panic!("Expected configuration error"),
    }
}

#[test]
fn test_api_error_handling() {
    let client = SchlepClient::with_base_url("test-api-key", BASE).unwrap();
    let config = json(r#"{"invalid":"config"}"#);
    let req = client.train(config).unwrap();
    assert_eq!(req.url, format!("{}/train", BASE));
    assert_eq!(header(&req, "content-type"), Some("application/json"));

    let body = r#"{"message":"Invalid training configuration"}"#;
    let result = handle_response::<TrainResponse>(400, body, Err("missing field `job_id`".to_string()));

    assert!(result.is_err());
    match result.unwrap_err() {
        Error::Api { code, message } => {
            assert_eq!(code, 400);
            assert_eq!(message, "Invalid training configuration");
        }
        _ => panic!("Expected API error"),
    }
}
