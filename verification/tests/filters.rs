//! Filter construction and search planning.

use hog_ingest::models::options::build_log_data_value_aggregation_pipeline;
use hog_ingest::models::options::build_filter;
use hog_ingest::models::options::FilterCond;
use hog_ingest::models::options::OptionsRequest;
use hog_ingest::models::options::PipelineStage;
use hog_ingest::models::options::Value;
use hog_ingest::services::hog_service::search_plan;
use hog_ingest::services::hog_service::SearchPlan;

fn empty_options() -> OptionsRequest {
    OptionsRequest {
        log_timestamp: None,
        log_timestamp_start: None,
        log_timestamp_end: None,
        log_level: None,
        log_message: None,
        log_data: None,
        log_data_field: None,
        log_data_value: None,
        log_data_fields: None,
        log_data_values: None,
        log_type: None,
        log_source: None,
        log_source_id: None,
        hog_uuid: None,
        hog_limit: None,
        hog_sort: None,
        hog_partial: None,
        hog_case_sensitive: None,
        hog_timestamp: None,
        hog_timestamp_start: None,
        hog_timestamp_end: None,
    }
}

#[test]
fn empty_options_build_an_empty_filter() {
    let filter = build_filter(&empty_options());
    assert!(filter.is_empty());
}

#[test]
fn text_conditions_come_in_examination_order() {
    let mut options = empty_options();
    options.log_level = Some("error".to_string());
    options.log_source = Some("svc".to_string());
    options.log_message = Some("boom".to_string());
    options.log_type = Some("app".to_string());
    let filter = build_filter(&options);
    let entries = filter.entries();
    let keys: Vec<&str> = entries.iter().map(|(k, _)| k.as_str()).collect();
    assert_eq!(keys, vec!["log_level", "log_source", "log_message", "log_type"]);
    assert!(matches!(&entries[0].1, FilterCond::Text(t) if t == "error"));
    assert!(matches!(&entries[2].1, FilterCond::Text(t) if t == "boom"));
}

#[test]
fn partial_match_turns_the_message_into_a_pattern() {
    let mut options = empty_options();
    options.log_message = Some("disk full".to_string());
    options.hog_partial = Some(true);
    let filter = build_filter(&options);
    let entries = filter.entries();
    assert_eq!(entries.len(), 1);
    assert!(matches!(
        &entries[0].1,
        FilterCond::CaseInsensitivePattern(p) if p == "disk full"
    ));
}

#[test]
fn timestamp_range_wins_over_the_point_log_timestamp() {
    let mut options = empty_options();
    options.log_timestamp = Some(5);
    options.log_timestamp_start = Some(1);
    options.log_timestamp_end = Some(9);
    let filter = build_filter(&options);
    let entries = filter.entries();
    assert_eq!(entries.len(), 1);
    assert_eq!(entries[0].0, "log_timestamp");
    assert!(matches!(
        entries[0].1,
        FilterCond::TimestampRange { gte: Some(1), lte: Some(9) }
    ));
}

#[test]
fn point_hog_timestamp_overrides_its_range() {
    let mut options = empty_options();
    options.hog_timestamp = Some(7);
    options.hog_timestamp_start = Some(1);
    let filter = build_filter(&options);
    let entries = filter.entries();
    assert_eq!(entries.len(), 1);
    assert_eq!(entries[0].0, "hog_timestamp");
    assert!(matches!(entries[0].1, FilterCond::Timestamp(7)));
}

#[test]
fn data_field_alone_asks_for_presence() {
    let mut options = empty_options();
    options.log_data_field = Some("user".to_string());
    let filter = build_filter(&options);
    let entries = filter.entries();
    assert_eq!(entries.len(), 1);
    assert_eq!(entries[0].0, "log_data.user");
    assert!(matches!(entries[0].1, FilterCond::Exists(true)));
}

#[test]
fn data_field_with_value_asks_for_that_value() {
    let mut options = empty_options();
    options.log_data_field = Some("user".to_string());
    options.log_data_value = Some(Some(Value::Number(3)));
    let filter = build_filter(&options);
    let entries = filter.entries();
    assert_eq!(entries.len(), 1);
    assert_eq!(entries[0].0, "log_data.user");
    assert!(matches!(&entries[0].1, FilterCond::Json(Value::Number(3))));
}

#[test]
fn data_values_map_is_flattened_per_field() {
    let mut options = empty_options();
    options.log_data_values = Some(Some(Value::Object(vec![
        ("a".to_string(), Value::Number(1)),
        ("b".to_string(), Value::Number(2)),
    ])));
    let filter = build_filter(&options);
    let entries = filter.entries();
    let keys: Vec<&str> = entries.iter().map(|(k, _)| k.as_str()).collect();
    assert_eq!(keys, vec!["log_data.a", "log_data.b"]);
    assert!(matches!(&entries[1].1, FilterCond::Json(Value::Number(2))));
}

#[test]
fn a_data_value_without_a_field_needs_the_pipeline() {
    let mut options = empty_options();
    options.log_data_value = Some(Some(Value::Number(3)));
    options.log_level = Some("warn".to_string());
    match search_plan(&options) {
        SearchPlan::Aggregate(stages) => {
            assert_eq!(stages.len(), 4);
            assert!(matches!(stages[0], PipelineStage::MatchLogDataObject));
            assert!(matches!(stages[1], PipelineStage::ProjectRecordFields));
            assert!(matches!(&stages[2], PipelineStage::MatchValueInLogData(Value::Number(3))));
            match &stages[3] {
                PipelineStage::MatchFilter(extra) => {
                    let entries = extra.entries();
                    assert_eq!(entries.len(), 1);
                    assert_eq!(entries[0].0, "log_level");
                }
                other => panic!("expected the residual filter, got {:?}", other),
            }
        }
        SearchPlan::Find { .. } => panic!("expected the aggregation plan"),
    }
}

#[test]
fn the_pipeline_omits_an_empty_residual_filter() {
    let mut options = empty_options();
    options.log_data_value = Some(Some(Value::Bool(true)));
    let stages = build_log_data_value_aggregation_pipeline(&Value::Bool(true), &options);
    assert_eq!(stages.len(), 3);
}

#[test]
fn plain_searches_use_find_with_the_default_limit() {
    let mut options = empty_options();
    options.log_level = Some("warn".to_string());
    match search_plan(&options) {
        SearchPlan::Find { filter, limit } => {
            assert_eq!(limit, 1000);
            assert_eq!(filter.len(), 1);
        }
        SearchPlan::Aggregate(_) => panic!("expected a plain find"),
    }
}

#[test]
fn an_explicit_limit_is_kept() {
    let mut options = empty_options();
    options.hog_limit = Some(25);
    options.log_data_value = Some(Some(Value::Number(1)));
    options.log_data_field = Some("k".to_string());
    match search_plan(&options) {
        SearchPlan::Find { limit, .. } => assert_eq!(limit, 25),
        SearchPlan::Aggregate(_) => panic!("a pinned field needs no aggregation"),
    }
}
