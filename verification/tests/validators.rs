//! Request validation: accepted shapes, findings, and field extraction.

use hog_ingest::models::hog_client_schema::validate;
use hog_ingest::models::options::validate_options;
use hog_ingest::models::options::SortType;
use hog_ingest::models::options::Value;
use hog_ingest::validator::validate_hog_client_schema;

fn obj(fields: Vec<(&str, Value)>) -> Value {
    Value::Object(fields.into_iter().map(|(k, v)| (k.to_string(), v)).collect())
}

fn s(text: &str) -> Value {
    Value::String(text.to_string())
}

#[test]
fn validate_accepts_a_full_request() {
    let req = obj(vec![
        ("log_timestamp", s("2024-05-01T10:00:00Z")),
        ("log_message", s("it works")),
        ("log_level", s("info")),
        ("log_data", obj(vec![("k", Value::Number(1))])),
        ("log_type", s("app")),
        ("log_source", s("svc")),
        ("log_source_id", s("svc-1")),
    ]);
    let hog_request = validate(&req).expect("a complete request is accepted");
    assert_eq!(hog_request.log_timestamp, "2024-05-01T10:00:00Z");
    assert_eq!(hog_request.log_message, "it works");
    assert_eq!(hog_request.log_level.as_deref(), Some("info"));
    assert_eq!(hog_request.log_type.as_deref(), Some("app"));
    assert_eq!(hog_request.log_source.as_deref(), Some("svc"));
    assert_eq!(hog_request.log_source_id.as_deref(), Some("svc-1"));
    assert!(hog_request.log_data.is_some());
}

#[test]
fn validate_reports_missing_required_fields_in_order() {
    let req = obj(vec![("log_level", s("info"))]);
    let resp = validate(&req).expect_err("timestamp and message are required");
    assert_eq!(resp.status_code, 400);
    assert_eq!(resp.message, "Validation failed");
    let findings: Vec<(&str, &str)> = resp
        .errors
        .iter()
        .map(|e| (e.field.as_str(), e.message.as_str()))
        .collect();
    assert_eq!(
        findings,
        vec![
            ("log_timestamp", "log_timestamp is required"),
            ("log_message", "log_message is required"),
        ]
    );
}

#[test]
fn validate_rejects_non_object_log_data() {
    let req = obj(vec![
        ("log_timestamp", s("2024-05-01T10:00:00Z")),
        ("log_message", s("m")),
        ("log_data", s("not an object")),
    ]);
    let resp = validate(&req).expect_err("log_data must be an object");
    assert_eq!(resp.errors.len(), 1);
    assert_eq!(resp.errors[0].field, "log_data");
    assert_eq!(resp.errors[0].message, "log_data must be a valid JSON object");
}

#[test]
fn validate_treats_non_string_required_field_as_missing() {
    let req = obj(vec![
        ("log_timestamp", Value::Number(5)),
        ("log_message", s("m")),
    ]);
    let resp = validate(&req).expect_err("a numeric timestamp is not a timestamp text");
    assert_eq!(resp.errors.len(), 1);
    assert_eq!(resp.errors[0].field, "log_timestamp");
}

#[test]
fn schema_validator_reports_through_validation_error() {
    let req = obj(vec![]);
    let err = validate_hog_client_schema(&req).expect_err("both fields missing");
    assert_eq!(err.errors.len(), 2);
    assert_eq!(err.errors[0].field, "log_timestamp");
    assert_eq!(err.errors[1].field, "log_message");

    let ok = validate_hog_client_schema(&obj(vec![
        ("log_timestamp", s("2024-05-01T10:00:00Z")),
        ("log_message", s("hello")),
    ]))
    .expect("required fields are enough");
    assert_eq!(ok.log_message, "hello");
    assert!(ok.log_level.is_none());
}

#[test]
fn options_accepts_a_full_request_and_extracts_values() {
    let req = obj(vec![
        ("log_level", s("warn")),
        ("log_message", s("disk")),
        ("log_timestamp", s("1970-01-01T00:00:01Z")),
        ("hog_limit", Value::Number(25)),
        ("hog_sort", s("ascending")),
        ("hog_partial", Value::Bool(true)),
        ("hog_case_sensitive", Value::Bool(true)),
        ("hog_uuid", s("abc")),
        ("log_data_field", s("user")),
    ]);
    let options = validate_options(&req).expect("a well-formed request is accepted");
    assert_eq!(options.log_level.as_deref(), Some("warn"));
    assert_eq!(options.log_message.as_deref(), Some("disk"));
    // One second past the epoch is exactly 1000 milliseconds.
    assert_eq!(options.log_timestamp, Some(1000));
    assert_eq!(options.hog_limit, Some(25));
    assert!(matches!(options.hog_sort, Some(SortType::Ascending)));
    assert_eq!(options.hog_partial, Some(true));
    assert_eq!(options.hog_uuid.as_deref(), Some("abc"));
    assert_eq!(options.log_data_field.as_deref(), Some("user"));
    assert!(options.log_timestamp_start.is_none());
}

#[test]
fn options_rejects_blank_and_non_positive_fields() {
    let req = obj(vec![
        ("log_level", s("   ")),
        ("hog_limit", Value::Number(0)),
        ("hog_partial", Value::Bool(false)),
        ("hog_sort", s("sideways")),
    ]);
    let resp = validate_options(&req).expect_err("blank and zero values are findings");
    assert_eq!(resp.status_code, 400);
    assert_eq!(resp.message, "Validation errors occurred");
    let findings: Vec<(&str, &str)> = resp
        .errors
        .iter()
        .map(|e| (e.field.as_str(), e.message.as_str()))
        .collect();
    assert_eq!(
        findings,
        vec![
            ("log_level", "log_level cannot be empty"),
            ("hog_limit", "hog_limit must be greater than zero"),
            ("hog_partial", "hog_partial must be true for this operation"),
            ("hog_sort", "hog_sort must be 'ascending' or 'descending'"),
        ]
    );
}

#[test]
fn options_rejects_timestamps_before_the_epoch() {
    let req = obj(vec![("log_timestamp", s("1969-12-31T23:59:59Z"))]);
    let resp = validate_options(&req).expect_err("a pre-epoch timestamp is a finding");
    assert_eq!(resp.errors.len(), 1);
    assert_eq!(resp.errors[0].field, "log_timestamp");
    assert_eq!(resp.errors[0].message, "log_timestamp cannot be before epoch");
}

#[test]
fn options_ignores_an_unparseable_timestamp() {
    let req = obj(vec![("log_timestamp", s("not a date"))]);
    let options = validate_options(&req).expect("an unparseable timestamp is not a finding");
    assert!(options.log_timestamp.is_none());
}

#[test]
fn options_rejects_empty_data_object_and_empty_field_lists() {
    let req = obj(vec![
        ("log_data", obj(vec![])),
        ("log_data_fields", Value::Array(vec![])),
        ("hog_fields", Value::Array(vec![])),
    ]);
    let resp = validate_options(&req).expect_err("empty collections are findings");
    let fields: Vec<&str> = resp.errors.iter().map(|e| e.field.as_str()).collect();
    assert_eq!(fields, vec!["hog_fields", "log_data", "log_data_fields"]);
}

#[test]
fn options_rejects_non_object_log_data_values() {
    let req = obj(vec![("log_data_values", Value::Array(vec![Value::Number(1)]))]);
    let resp = validate_options(&req).expect_err("log_data_values must be an object");
    assert_eq!(resp.errors.len(), 1);
    assert_eq!(resp.errors[0].field, "log_data");
    assert_eq!(resp.errors[0].message, "log_data must be a valid JSON object");
}

#[test]
fn options_keeps_descending_sort() {
    let req = obj(vec![("hog_sort", s("descending"))]);
    let options = validate_options(&req).expect("descending is a valid sort");
    assert!(matches!(options.hog_sort, Some(SortType::Descending)));
}

#[test]
fn options_keeps_the_string_items_of_field_lists() {
    let req = obj(vec![(
        "log_data_fields",
        Value::Array(vec![s("user"), Value::Number(1), s("role")]),
    )]);
    let options = validate_options(&req).expect("a non-empty list is accepted");
    assert_eq!(
        options.log_data_fields,
        Some(vec!["user".to_string(), "role".to_string()])
    );
}

#[test]
fn value_lookup_takes_the_first_match() {
    let v = obj(vec![("k", Value::Number(1)), ("k", Value::Number(2))]);
    match v.get("k") {
        Some(Value::Number(n)) => assert_eq!(*n, 1),
        other => panic!("unexpected lookup result: {:?}", other),
    }
    assert!(v.get("missing").is_none());
    assert!(s("text").get("k").is_none());
}
