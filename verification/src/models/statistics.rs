//! Aggregate counts over the stored collection.

use vstd::prelude::*;

verus! {

/// Field-presence counts over the collection, as the statistics
/// endpoint reports them.
#[derive(Debug)]
pub struct HogStatistics {
    pub record_count: i64,
    pub log_level_count: i64,
    pub log_type_count: i64,
    pub log_source_count: i64,
    pub log_source_id_count: i64,
    pub log_data_count: i64,
    pub log_timestamp_count: i64,
    pub log_message_count: i64,
}

impl HogStatistics {
    pub fn new() -> (r: Self)
        ensures
            r == (HogStatistics {
                record_count: 0i64,
                log_level_count: 0i64,
                log_type_count: 0i64,
                log_source_count: 0i64,
                log_source_id_count: 0i64,
                log_data_count: 0i64,
                log_timestamp_count: 0i64,
                log_message_count: 0i64,
            }),
    {
        HogStatistics {
            record_count: 0,
            log_level_count: 0,
            log_type_count: 0,
            log_source_count: 0,
            log_source_id_count: 0,
            log_data_count: 0,
            log_timestamp_count: 0,
            log_message_count: 0,
        }
    }
}

} // verus!
