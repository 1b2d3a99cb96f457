//! Conversions between the stored and the API-facing record shapes.

use hog_ingest::models::hog::Hog;
use hog_ingest::models::hog_record::HogRecord;
use hog_ingest::utils::utils::convert_hog_record_to_hog;
use hog_ingest::utils::utils::convert_hog_records_to_hogs;
use hog_ingest::utils::utils::convert_hog_to_hog_record;
use hog_ingest::utils::utils::convert_hogs_to_hog_records;
use hog_ingest::utils::utils::get_timestamp;

fn record(ms: i64) -> HogRecord {
    HogRecord {
        log_timestamp: ms,
        log_level: Some("info".to_string()),
        log_message: "msg".to_string(),
        log_data: None,
        log_type: Some("app".to_string()),
        log_source: None,
        log_source_id: None,
        hog_uuid: Some("u-1".to_string()),
        hog_timestamp: Some(42),
        created_at: Some(7),
        id: Some("507f1f77bcf86cd799439011".to_string()),
    }
}

#[test]
fn record_to_hog_renders_the_timestamp() {
    let hog = convert_hog_record_to_hog(&record(1000)).expect("1000 ms is representable");
    // One second past the epoch, rendered with millisecond precision.
    assert_eq!(hog.client_request.log_timestamp, "1970-01-01T00:00:01.000Z");
    assert_eq!(hog.client_request.log_level.as_deref(), Some("info"));
    assert_eq!(hog.client_request.log_message, "msg");
    assert_eq!(hog.hog_uuid.as_deref(), Some("u-1"));
    assert_eq!(hog.hog_timestamp, Some(42));
    assert_eq!(hog.created_at, Some(7));
    assert_eq!(hog.id.as_deref(), Some("507f1f77bcf86cd799439011"));
}

#[test]
fn record_to_hog_fails_outside_the_calendar_range() {
    assert!(convert_hog_record_to_hog(&record(i64::MAX)).is_none());
}

#[test]
fn hog_to_record_parses_the_timestamp_and_stamps_created_at() {
    let hog = convert_hog_record_to_hog(&record(1000)).unwrap();
    let back = convert_hog_to_hog_record(&hog, 555).expect("the rendered text parses back");
    assert_eq!(back.log_timestamp, 1000);
    assert_eq!(back.created_at, Some(555));
    assert_eq!(back.hog_timestamp, Some(42));
    // A well-formed identifier is kept, in canonical lower-case form.
    assert_eq!(back.id.as_deref(), Some("507f1f77bcf86cd799439011"));
}

#[test]
fn hog_to_record_normalizes_the_identifier_case() {
    let mut hog = convert_hog_record_to_hog(&record(1000)).unwrap();
    hog.id = Some("507F1F77BCF86CD799439011".to_string());
    let back = convert_hog_to_hog_record(&hog, 0).unwrap();
    assert_eq!(back.id.as_deref(), Some("507f1f77bcf86cd799439011"));
}

#[test]
fn hog_to_record_drops_an_invalid_identifier() {
    let mut hog = convert_hog_record_to_hog(&record(1000)).unwrap();
    hog.id = Some("not-an-object-id".to_string());
    let back = convert_hog_to_hog_record(&hog, 0).unwrap();
    assert!(back.id.is_none());
}

#[test]
fn hog_to_record_fails_on_unparseable_timestamp() {
    let mut hog = convert_hog_record_to_hog(&record(1000)).unwrap();
    hog.client_request.log_timestamp = "yesterday".to_string();
    assert!(convert_hog_to_hog_record(&hog, 0).is_none());
}

#[test]
fn list_conversions_keep_length_and_order() {
    let records = vec![record(1000), record(2000), record(3000)];
    let hogs: Vec<Hog> = convert_hog_records_to_hogs(&records).expect("all representable");
    assert_eq!(hogs.len(), 3);
    assert_eq!(hogs[1].client_request.log_timestamp, "1970-01-01T00:00:02.000Z");

    let back = convert_hogs_to_hog_records(&hogs, 9).expect("all parse back");
    assert_eq!(back.len(), 3);
    assert_eq!(back[0].log_timestamp, 1000);
    assert_eq!(back[2].log_timestamp, 3000);
    assert!(back.iter().all(|r| r.created_at == Some(9)));
}

#[test]
fn list_conversion_fails_when_one_record_is_out_of_range() {
    let records = vec![record(1000), record(i64::MIN)];
    assert!(convert_hog_records_to_hogs(&records).is_none());
}

#[test]
fn the_clock_reports_a_recent_instant() {
    // 2020-01-01T00:00:00Z in milliseconds; the clock must be past it.
    assert!(get_timestamp() > 1_577_836_800_000);
}
