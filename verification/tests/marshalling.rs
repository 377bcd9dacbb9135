use athen::query::extract_query;
use athen::query::extract_query_from_str;
use athen::query::QueryData;
use athen::query::QueryItem;

fn expect_number(data: &QueryData, key: &str, literal: &str) {
    match data.get(key) {
        Some(QueryItem::Number(n)) => assert_eq!(n, literal),
        other => panic!("expected a number for key {}: {:?}", key, other.is_some()),
    }
}

fn expect_string(data: &QueryData, key: &str, text: &str) {
    match data.get(key) {
        Some(QueryItem::String(s)) => assert_eq!(s, text),
        other => panic!("expected a string for key {}: {:?}", key, other.is_some()),
    }
}

#[test]
fn single_number_without_key_prefix() {
    let data = extract_query("{\"a\":1}");
    expect_number(&data, "a", "1");
    assert!(!data.is_empty());
}

#[test]
fn empty_and_malformed_yield_empty_payload() {
    assert!(extract_query("").is_empty());
    assert!(extract_query("not json").is_empty());
    assert!(extract_query_from_str("").is_empty());
    assert!(extract_query_from_str("not json").is_empty());
}

#[test]
fn key_name_is_irrelevant_only_first_value_used() {
    let data = extract_query("q={\"x\":\"hi\",\"y\":2}");
    expect_string(&data, "x", "hi");
    expect_number(&data, "y", "2");

    let other = extract_query("whatever={\"x\":\"hi\",\"y\":2}");
    expect_string(&other, "x", "hi");
    expect_number(&other, "y", "2");
}

#[test]
fn only_first_pair_of_query_string_counts() {
    let data = extract_query("q={\"a\":1}&r={\"b\":2}");
    expect_number(&data, "a", "1");
    assert!(data.get("b").is_none());
}

#[test]
fn empty_object_is_a_valid_empty_payload() {
    assert!(extract_query("q={}").is_empty());
    assert!(extract_query_from_str("{}").is_empty());
    assert!(extract_query_from_str("  { } ").is_empty());
}

#[test]
fn whitespace_is_tolerated() {
    let data = extract_query_from_str(" { \"a\" :\t1 ,\n\"b\" : \"x\" } ");
    expect_number(&data, "a", "1");
    expect_string(&data, "b", "x");
}

#[test]
fn nested_or_unsupported_values_yield_empty_payload() {
    assert!(extract_query_from_str("{\"a\":{}}").is_empty());
    assert!(extract_query_from_str("{\"a\":[1]}").is_empty());
    assert!(extract_query_from_str("{\"a\":true}").is_empty());
    assert!(extract_query_from_str("{\"a\":null}").is_empty());
}

#[test]
fn later_duplicate_key_wins() {
    let data = extract_query_from_str("{\"a\":1,\"a\":2}");
    expect_number(&data, "a", "2");
}

#[test]
fn number_grammar() {
    let data = extract_query_from_str("{\"a\":-12.5e3,\"b\":0,\"c\":10E+2}");
    expect_number(&data, "a", "-12.5e3");
    expect_number(&data, "b", "0");
    expect_number(&data, "c", "10E+2");

    assert!(extract_query_from_str("{\"a\":01}").is_empty());
    assert!(extract_query_from_str("{\"a\":1.}").is_empty());
    assert!(extract_query_from_str("{\"a\":+1}").is_empty());
    assert!(extract_query_from_str("{\"a\":1e}").is_empty());
}

#[test]
fn string_escapes_are_decoded() {
    let data = extract_query_from_str("{\"a\":\"x\\n\\t\\\"\\\\\\/\\u0041\"}");
    expect_string(&data, "a", "x\n\t\"\\/A");
}

#[test]
fn surrogate_pairs_combine() {
    let data = extract_query_from_str("{\"a\":\"\\uD83D\\uDE00\"}");
    expect_string(&data, "a", "\u{1F600}");
}

#[test]
fn lone_surrogate_is_malformed() {
    assert!(extract_query_from_str("{\"a\":\"\\uD83Dx\"}").is_empty());
    assert!(extract_query_from_str("{\"a\":\"\\uDE00\"}").is_empty());
}

#[test]
fn escaped_keys_are_decoded() {
    let data = extract_query_from_str("{\"a\\u0062\":1}");
    expect_number(&data, "ab", "1");
}

#[test]
fn trailing_garbage_is_malformed() {
    assert!(extract_query_from_str("{} x").is_empty());
    assert!(extract_query_from_str("{\"a\":1},").is_empty());
    assert!(extract_query_from_str("{\"a\":1").is_empty());
    assert!(extract_query_from_str("{\"a\":1,}").is_empty());
}

#[test]
fn payload_insert_and_get() {
    let mut data = QueryData::new();
    assert!(data.is_empty());
    data.insert("k".to_string(), QueryItem::Number("7".to_string()));
    expect_number(&data, "k", "7");
    data.insert("k".to_string(), QueryItem::String("v".to_string()));
    expect_string(&data, "k", "v");
    assert!(data.get("missing").is_none());
}

#[test]
fn payload_default_is_empty() {
    let data: QueryData = Default::default();
    assert!(data.is_empty());
}
