//! Error types, record creation, and startup policy.

use hog_ingest::config::connect_retry_step;
use hog_ingest::config::index_plan;
use hog_ingest::config::ConnectStep;
use hog_ingest::errors::ApiError;
use hog_ingest::errors::ApiErrorField;
use hog_ingest::errors::SomeCreateError;
use hog_ingest::errors::ValidationError;
use hog_ingest::models::client_request::ClientRequest;
use hog_ingest::models::hog::Hog;
use hog_ingest::models::hog_client_schema::HogRequest;
use hog_ingest::models::statistics::HogStatistics;
use hog_ingest::services::hog_service::create_hog_record;
use hog_ingest::services::hog_service::new_hog_uuid;

#[test]
fn status_codes_follow_the_error_class() {
    let bad = ApiError::BadRequest { message: "m".to_string(), fields: None };
    assert_eq!(bad.status_code(), 400);
    assert_eq!(bad.message(), "m");
    assert!(bad.fields().is_none());

    let unauthorized = ApiError::Unauthorized { message: "u".to_string(), fields: None };
    assert_eq!(unauthorized.status_code(), 401);
    let forbidden = ApiError::Forbidden { message: "f".to_string(), fields: None };
    assert_eq!(forbidden.status_code(), 403);
    let not_found = ApiError::NotFound { message: "n".to_string(), fields: None };
    assert_eq!(not_found.status_code(), 404);
    let internal = ApiError::InternalServerError { message: "i".to_string(), fields: None };
    assert_eq!(internal.status_code(), 500);
}

#[test]
fn other_status_codes_fall_back_to_500_outside_the_valid_range() {
    let teapot = ApiError::Other { status_code: 418, message: "t".to_string(), fields: None };
    assert_eq!(teapot.status_code(), 418);
    let bogus = ApiError::Other { status_code: 42, message: "b".to_string(), fields: None };
    assert_eq!(bogus.status_code(), 500);
}

#[test]
fn validation_errors_become_a_bad_request() {
    let validation_error = ValidationError::new(vec![ApiErrorField {
        field: "log_message".to_string(),
        message: "log_message is required".to_string(),
    }]);
    let api_error = ApiError::from_validation_error(validation_error);
    assert_eq!(api_error.status_code(), 400);
    assert_eq!(api_error.message(), "Validation error");
    let fields = api_error.fields().as_ref().expect("findings carry over");
    assert_eq!(fields.len(), 1);
    assert_eq!(fields[0].field, "log_message");
}

#[test]
fn create_errors_become_an_internal_error_with_a_trace() {
    let err = SomeCreateError::new("broker unreachable".to_string());
    assert_eq!(err.root_cause(), "broker unreachable");
    let api_error = ApiError::from_create_error(err);
    assert_eq!(api_error.status_code(), 500);
    assert_eq!(api_error.message(), "Failed to create hog");
    let fields = api_error.fields().as_ref().unwrap();
    assert_eq!(fields[0].field, "trace");
    assert_eq!(fields[0].message, "broker unreachable");
}

#[test]
fn statistics_start_at_zero() {
    let stats = HogStatistics::new();
    assert_eq!(stats.record_count, 0);
    assert_eq!(stats.log_level_count, 0);
    assert_eq!(stats.log_message_count, 0);
}

#[test]
fn hog_new_keeps_its_fields() {
    let hog = Hog::new(
        ClientRequest {
            log_timestamp: "2024-05-01T10:00:00Z".to_string(),
            log_level: None,
            log_message: "m".to_string(),
            log_data: None,
            log_type: None,
            log_source: None,
            log_source_id: None,
        },
        Some("u".to_string()),
        Some(3),
        None,
        None,
    );
    assert_eq!(hog.hog_uuid.as_deref(), Some("u"));
    assert_eq!(hog.hog_timestamp, Some(3));
    assert!(hog.id.is_none());
}

#[test]
fn created_records_carry_the_identifier_and_enqueue_time() {
    let req = HogRequest {
        log_timestamp: "1970-01-01T00:00:02Z".to_string(),
        log_level: Some("info".to_string()),
        log_message: "m".to_string(),
        log_data: None,
        log_type: None,
        log_source: None,
        log_source_id: None,
    };
    let uuid = new_hog_uuid();
    assert_eq!(uuid.len(), 36);
    let rec = create_hog_record(&req, uuid.clone(), 777).expect("the timestamp parses");
    assert_eq!(rec.log_timestamp, 2000);
    assert_eq!(rec.hog_uuid.as_deref(), Some(uuid.as_str()));
    assert_eq!(rec.hog_timestamp, Some(777));
    assert!(rec.created_at.is_none());
    assert!(rec.id.is_none());

    let bad = HogRequest { log_timestamp: "noon".to_string(), ..req };
    assert!(create_hog_record(&bad, new_hog_uuid(), 0).is_none());
}

#[test]
fn connection_retries_until_the_budget_is_spent() {
    for attempt in 1..15 {
        assert_eq!(connect_retry_step(attempt, 15, 3000), ConnectStep::Retry(3000));
    }
    assert_eq!(connect_retry_step(15, 15, 3000), ConnectStep::GiveUp);
}

#[test]
fn the_index_plan_covers_the_queried_fields() {
    let plan = index_plan();
    assert_eq!(plan.len(), 5);
    assert_eq!(plan[0].fields, vec![("hog_uuid".to_string(), false)]);
    assert_eq!(plan[1].fields, vec![("hog_timestamp".to_string(), true)]);
    assert_eq!(plan[2].fields, vec![("log_timestamp".to_string(), true)]);
    assert_eq!(plan[3].fields, vec![("log_type".to_string(), false)]);
    assert_eq!(
        plan[4].fields,
        vec![
            ("log_source".to_string(), false),
            ("log_timestamp".to_string(), true)
        ]
    );
}
