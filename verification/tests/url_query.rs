use batch_client::client::Batches;
use batch_client::config::BatchConfig;
use batch_client::query::{encode_component, encode_query, full_url};

#[test]
fn unreserved_characters_pass_through_unchanged() {
    assert_eq!(
        encode_component("AZaz09-_.~batch_123"),
        "AZaz09-_.~batch_123"
    );
}

#[test]
fn reserved_ascii_is_percent_encoded() {
    assert_eq!(encode_component("a b"), "a%20b");
    assert_eq!(encode_component("k&v=x"), "k%26v%3dx");
    assert_eq!(encode_component("50%"), "50%25");
    assert_eq!(encode_component("/batches?x"), "%2fbatches%3fx");
}

#[test]
fn multi_byte_characters_encode_each_utf8_byte() {
    assert_eq!(encode_component("\u{3bb}"), "%ce%bb");
    assert_eq!(encode_component("\u{2713}"), "%e2%9c%93");
    assert_eq!(encode_component("\u{1f600}"), "%f0%9f%98%80");
}

#[test]
fn query_pairs_join_with_ampersands() {
    let pairs = vec![
        ("after".to_string(), "batch_1".to_string()),
        ("limit".to_string(), "20".to_string()),
    ];
    assert_eq!(encode_query(&pairs), "after=batch_1&limit=20");
}

#[test]
fn query_values_are_encoded_inside_pairs() {
    let pairs = vec![("note".to_string(), "a b&c".to_string())];
    assert_eq!(encode_query(&pairs), "note=a%20b%26c");
}

#[test]
fn url_of_an_empty_query_is_the_path_alone() {
    let client = Batches::new(BatchConfig::new());
    let plan = client.list(Vec::new());
    assert_eq!(full_url(&plan), "/batches");
}

#[test]
fn url_of_a_listing_carries_the_encoded_query() {
    let client = Batches::new(BatchConfig::with_path_override("/v2/batches".to_string()));
    let plan = client.list(vec![("after".to_string(), "batch 1".to_string())]);
    assert_eq!(full_url(&plan), "/v2/batches?after=batch%201");
}
