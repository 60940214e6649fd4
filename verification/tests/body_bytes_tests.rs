use alternator_driver::interceptors::content_length;
use alternator_driver::json::{decimal_string, decimal_to_u64};
use alternator_driver::{JsonValue, VectorIndexesInterceptor};

fn interceptor(items: &[&str]) -> VectorIndexesInterceptor {
    VectorIndexesInterceptor {
        vector_indexes: items.iter().map(|x| x.to_string()).collect(),
    }
}

fn read(bytes: &[u8]) -> serde_json::Value {
    serde_json::from_slice(bytes).unwrap()
}

#[test]
fn body_bytes_gain_vector_indexes() {
    let body = br#"{"TableName":"T","BillingMode":"PAY_PER_REQUEST"}"#;
    let out = interceptor(&["idx1", "idx2"]).rewrite_body_bytes(body).unwrap();
    let mut expected = serde_json::Map::new();
    expected.insert("TableName".to_string(), serde_json::Value::from("T"));
    expected.insert(
        "BillingMode".to_string(),
        serde_json::Value::from("PAY_PER_REQUEST"),
    );
    expected.insert(
        "VectorIndexes".to_string(),
        serde_json::Value::Array(vec![
            serde_json::Value::from("idx1"),
            serde_json::Value::from("idx2"),
        ]),
    );
    assert_eq!(read(&out), serde_json::Value::Object(expected));
    assert_ne!(out.as_slice(), &body[..]);
}

#[test]
fn body_bytes_replace_existing_vector_indexes() {
    let body = br#"{"VectorIndexes":["old"],"TableName":"T"}"#;
    let out = interceptor(&["new"]).rewrite_body_bytes(body).unwrap();
    let v = read(&out);
    assert_eq!(v["VectorIndexes"], serde_json::Value::Array(vec![serde_json::Value::from("new")]));
    assert_eq!(v["TableName"], serde_json::Value::from("T"));
    assert_eq!(v.as_object().unwrap().len(), 2);
}

#[test]
fn body_bytes_keep_numbers_and_nesting() {
    let body = br#"{"ProvisionedThroughput":{"ReadCapacityUnits":5,"Ratio":1.5,"Delta":-3},"Flag":true,"Nothing":null}"#;
    let out = interceptor(&[]).rewrite_body_bytes(body).unwrap();
    let v = read(&out);
    assert_eq!(v["ProvisionedThroughput"]["ReadCapacityUnits"], serde_json::Value::from(5u64));
    assert_eq!(v["ProvisionedThroughput"]["Ratio"], serde_json::Value::from(1.5f64));
    assert_eq!(v["ProvisionedThroughput"]["Delta"], serde_json::Value::from(-3i64));
    assert_eq!(v["Flag"], serde_json::Value::Bool(true));
    assert_eq!(v["Nothing"], serde_json::Value::Null);
    assert_eq!(v["VectorIndexes"], serde_json::Value::Array(vec![]));
}

#[test]
fn body_bytes_leave_a_non_object_document() {
    let out = interceptor(&["a"]).rewrite_body_bytes(b"[1,2]").unwrap();
    assert_eq!(out, b"[1,2]".to_vec());
}

#[test]
fn body_bytes_refuse_invalid_json() {
    assert!(interceptor(&["a"]).rewrite_body_bytes(b"{not json").is_none());
    assert!(interceptor(&["a"]).rewrite_body_bytes(b"").is_none());
}

#[test]
fn body_bytes_rewrite_twice_is_rewrite_once() {
    let i = interceptor(&["x", "y"]);
    let once = i.rewrite_body_bytes(br#"{"TableName":"T"}"#).unwrap();
    let twice = i.rewrite_body_bytes(&once).unwrap();
    assert_eq!(once, twice);
}

#[test]
fn content_length_is_decimal_length() {
    assert_eq!(content_length(b""), "0");
    assert_eq!(content_length(&[0u8; 1234]), "1234");
}

#[test]
fn decimal_text_round_trips() {
    assert_eq!(decimal_string(0), "0");
    assert_eq!(decimal_string(1536), "1536");
    assert_eq!(decimal_string(u64::MAX), "18446744073709551615");
    assert_eq!(decimal_to_u64("1536"), Some(1536));
    assert_eq!(decimal_to_u64("18446744073709551615"), Some(u64::MAX));
    assert_eq!(decimal_to_u64("18446744073709551616"), None);
    assert_eq!(decimal_to_u64(""), None);
    assert_eq!(decimal_to_u64("-3"), None);
    assert_eq!(decimal_to_u64("1.5"), None);
}

#[test]
fn number_reads_as_u64_only_when_unsigned_integer() {
    assert_eq!(JsonValue::Number("42".to_string()).as_u64(), Some(42));
    assert_eq!(JsonValue::Number("-3".to_string()).as_u64(), None);
    assert_eq!(JsonValue::Number("1.5".to_string()).as_u64(), None);
    assert_eq!(
        JsonValue::Number("18446744073709551616".to_string()).as_u64(),
        None
    );
    assert_eq!(JsonValue::String("42".to_string()).as_u64(), None);
}
