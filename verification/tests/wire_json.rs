use batch_client::client::Batches;
use batch_client::config::BatchConfig;
use batch_client::json::{empty_object_body, json_quote, metadata_to_json, request_to_json};
use batch_client::types::BatchRequest;

fn parse(body: &str) -> serde_json::Value {
    serde_json::from_str(body).expect("the encoder must produce valid JSON")
}

#[test]
fn request_body_is_the_exact_expected_object_text() {
    let request = BatchRequest {
        input_file_id: "file-xyz".to_string(),
        endpoint: "/v1/embeddings".to_string(),
        completion_window: "24h".to_string(),
        metadata: None,
    };
    assert_eq!(
        request_to_json(&request),
        "{\"input_file_id\":\"file-xyz\",\"endpoint\":\"/v1/embeddings\",\
         \"completion_window\":\"24h\"}",
    );
}

#[test]
fn request_body_round_trips_through_a_real_json_parser() {
    let request = BatchRequest {
        input_file_id: "file-xyz".to_string(),
        endpoint: "/v1/chat/completions".to_string(),
        completion_window: "24h".to_string(),
        metadata: None,
    };
    let v = parse(&request_to_json(&request));
    assert_eq!(v["input_file_id"].as_str(), Some("file-xyz"));
    assert_eq!(v["endpoint"].as_str(), Some("/v1/chat/completions"));
    assert_eq!(v["completion_window"].as_str(), Some("24h"));
    assert!(v.get("metadata").is_none());
}

#[test]
fn special_characters_are_escaped_so_the_parser_recovers_them() {
    let tricky = "a\"b\\c\nd\re\tf\u{1}g\u{1f}h λ ✓";
    let request = BatchRequest {
        input_file_id: tricky.to_string(),
        endpoint: "/v1/completions".to_string(),
        completion_window: "24h".to_string(),
        metadata: None,
    };
    let v = parse(&request_to_json(&request));
    assert_eq!(v["input_file_id"].as_str(), Some(tricky));
}

#[test]
fn control_characters_use_lower_case_unicode_escapes() {
    assert_eq!(json_quote("\u{0}"), "\"\\u0000\"");
    assert_eq!(json_quote("\u{1f}"), "\"\\u001f\"");
    assert_eq!(json_quote("\u{b}"), "\"\\u000b\"");
    assert_eq!(json_quote("\n"), "\"\\n\"");
    assert_eq!(json_quote("\t"), "\"\\t\"");
    assert_eq!(json_quote("\r"), "\"\\r\"");
    assert_eq!(json_quote("\""), "\"\\\"\"");
    assert_eq!(json_quote("\\"), "\"\\\\\"");
}

#[test]
fn metadata_appears_as_a_json_object_with_every_pair() {
    let request = BatchRequest {
        input_file_id: "file-1".to_string(),
        endpoint: "/v1/chat/completions".to_string(),
        completion_window: "24h".to_string(),
        metadata: Some(vec![
            ("environment".to_string(), "production".to_string()),
            ("team".to_string(), "search".to_string()),
        ]),
    };
    let v = parse(&request_to_json(&request));
    let metadata = v["metadata"].as_object().expect("metadata must be an object");
    assert_eq!(metadata.len(), 2);
    assert_eq!(metadata["environment"].as_str(), Some("production"));
    assert_eq!(metadata["team"].as_str(), Some("search"));
}

#[test]
fn empty_metadata_is_an_empty_object() {
    let body = metadata_to_json(&Vec::new());
    assert_eq!(body, "{}");
    assert!(parse(&body).as_object().unwrap().is_empty());
}

#[test]
fn metadata_values_are_escaped_too() {
    let pairs = vec![("note".to_string(), "line1\nline2 \"quoted\"".to_string())];
    let v = parse(&metadata_to_json(&pairs));
    assert_eq!(v["note"].as_str(), Some("line1\nline2 \"quoted\""));
}

#[test]
fn cancel_body_parses_as_the_non_null_empty_object() {
    let body = empty_object_body();
    assert_eq!(body, "{}");
    let v = parse(&body);
    assert!(!v.is_null());
    assert!(v.as_object().unwrap().is_empty());
}

#[test]
fn cancel_body_is_identical_under_a_payload_type_override() {
    // The cancel operation takes no payload, so a caller substituting its
    // own request type elsewhere still sends the same fixed body.
    let client = Batches::new(BatchConfig::with_path_override("/v2/batches".to_string()));
    let plan = client.cancel("batch_42").unwrap();
    assert_eq!(plan.body.as_deref(), Some("{}"));
    assert_eq!(plan.path, "/v2/batches/batch_42/cancel");
}
