//! The record service's decisions: how a search is executed and how an
//! accepted request becomes a stored record. The store and broker
//! calls around them live outside the library.

use vstd::prelude::*;

use crate::models::hog_client_schema::HogRequest;
use crate::models::hog_record::HogRecord;
use crate::models::options::aggregation_pipeline_spec;
use crate::models::options::build_filter;
use crate::models::options::build_filter_spec;
use crate::models::options::build_log_data_value_aggregation_pipeline;
use crate::models::options::clone_opt_string;
use crate::models::options::clone_opt_value;
use crate::models::options::FilterDoc;
use crate::models::options::OptionsRequest;
use crate::models::options::PipelineStage;
use crate::models::options::SpecStage;
use crate::utils::utils::parse_rfc3339_millis;
use crate::utils::utils::rfc3339_millis_of;

verus! {

/// How one search is to be executed against the store.
pub enum SearchPlan {
    /// Run the aggregation pipeline.
    Aggregate(Vec<PipelineStage>),
    /// Find by filter, newest first, up to `limit` records.
    Find { filter: FilterDoc, limit: i64 },
}

/// The default page size of a search without an explicit limit.
pub const DEFAULT_SEARCH_LIMIT: i64 = 1000;

/// Decides how a search request is executed: a structured-data value
/// without a field to pin it down needs the aggregation pipeline;
/// everything else is a plain find with the filter the options denote.
pub fn search_plan(options: &OptionsRequest) -> (r: SearchPlan)
    requires
        options.log_data_field is None ==> (options.log_data_value matches Some(inner)
            ==> inner is Some),
    ensures
        (options@.log_data_value is Some && options@.log_data_field is None) ==> {
            &&& r matches SearchPlan::Aggregate(p) && (options@.log_data_value matches Some(
                Some(v),
            ) && p.deep_view() == aggregation_pipeline_spec(v, options@))
        },
        !(options@.log_data_value is Some && options@.log_data_field is None) ==> {
            &&& r matches SearchPlan::Find { filter, limit }
            &&& filter@ == build_filter_spec(options@)
            &&& limit == (match options@.hog_limit {
                Some(l) => l,
                None => DEFAULT_SEARCH_LIMIT as i64,
            })
        },
{
    let need_aggregation = options.log_data_value.is_some() && options.log_data_field.is_none();
    if need_aggregation {
        let pipeline = match &options.log_data_value {
            Some(Some(v)) => build_log_data_value_aggregation_pipeline(v, options),
            _ => {
                proof {
                    assert(false);
                }
                Vec::new()
            },
        };
        SearchPlan::Aggregate(pipeline)
    } else {
        let filter = build_filter(options);
        let limit = match options.hog_limit {
            Some(l) => l,
            None => DEFAULT_SEARCH_LIMIT,
        };
        SearchPlan::Find { filter, limit }
    }
}

/// Relies on uuid's `Uuid::new_v4` and its hyphenated text form:
/// whatever value is drawn, its text is 36 characters long.
#[verifier::external_body]
pub fn new_hog_uuid() -> (r: String)
    ensures
        r@.len() == 36,
{
    uuid::Uuid::new_v4().to_string()
}

/// Turns an accepted ingestion request into the record that is queued
/// for persistence: the fresh identifier and the enqueue timestamp are
/// stamped in, `created_at` stays empty until the persistence writer
/// stamps it. Nothing comes back only when the request's timestamp
/// text does not parse as RFC 3339.
pub fn create_hog_record(req: &HogRequest, hog_uuid: String, now_ms: i64) -> (r: Option<HogRecord>)
    ensures
        r is Some <==> rfc3339_millis_of(req.log_timestamp@) is Some,
        r matches Some(rec) ==> {
            &&& rfc3339_millis_of(req@.log_timestamp) == Some(rec@.log_timestamp)
            &&& rec@.log_level == req@.log_level
            &&& rec@.log_message == req@.log_message
            &&& rec@.log_data == req@.log_data
            &&& rec@.log_type == req@.log_type
            &&& rec@.log_source == req@.log_source
            &&& rec@.log_source_id == req@.log_source_id
            &&& rec@.hog_uuid == Some(hog_uuid@)
            &&& rec@.hog_timestamp == Some(now_ms)
            &&& rec@.created_at is None
            &&& rec@.id is None
        },
{
    let log_timestamp = match parse_rfc3339_millis(req.log_timestamp.as_str()) {
        Some(ms) => ms,
        None => {
            return None;
        },
    };
    Some(
        HogRecord {
            log_timestamp,
            log_level: clone_opt_string(&req.log_level),
            log_message: req.log_message.clone(),
            log_data: clone_opt_value(&req.log_data),
            log_type: clone_opt_string(&req.log_type),
            log_source: clone_opt_string(&req.log_source),
            log_source_id: clone_opt_string(&req.log_source_id),
            hog_uuid: Some(hog_uuid),
            hog_timestamp: Some(now_ms),
            created_at: None,
            id: None,
        },
    )
}

} // verus!
