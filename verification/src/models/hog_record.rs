//! The stored shape of one log record, as written to the document store.

use vstd::prelude::*;

use crate::models::options::clone_opt_string;
use crate::models::options::clone_opt_value;
use crate::models::options::SpecValue;
use crate::models::options::Value;

verus! {

/// One document of the store's collection. All timestamps are
/// milliseconds since the epoch; `created_at` is stamped by the
/// persistence writer on every attempt; `id` is the store's
/// hexadecimal object identifier, absent until the store assigns one.
#[derive(Debug)]
pub struct HogRecord {
    pub log_timestamp: i64,
    pub log_level: Option<String>,
    pub log_message: String,
    pub log_data: Option<Value>,
    pub log_type: Option<String>,
    pub log_source: Option<String>,
    pub log_source_id: Option<String>,
    pub hog_uuid: Option<String>,
    pub hog_timestamp: Option<i64>,
    pub created_at: Option<i64>,
    pub id: Option<String>,
}

/// The mathematical shape of a [`HogRecord`].
pub ghost struct HogRecordView {
    pub log_timestamp: i64,
    pub log_level: Option<Seq<char>>,
    pub log_message: Seq<char>,
    pub log_data: Option<SpecValue>,
    pub log_type: Option<Seq<char>>,
    pub log_source: Option<Seq<char>>,
    pub log_source_id: Option<Seq<char>>,
    pub hog_uuid: Option<Seq<char>>,
    pub hog_timestamp: Option<i64>,
    pub created_at: Option<i64>,
    pub id: Option<Seq<char>>,
}

impl View for HogRecord {
    type V = HogRecordView;

    open spec fn view(&self) -> HogRecordView {
        HogRecordView {
            log_timestamp: self.log_timestamp,
            log_level: self.log_level.deep_view(),
            log_message: self.log_message@,
            log_data: self.log_data.deep_view(),
            log_type: self.log_type.deep_view(),
            log_source: self.log_source.deep_view(),
            log_source_id: self.log_source_id.deep_view(),
            hog_uuid: self.hog_uuid.deep_view(),
            hog_timestamp: self.hog_timestamp,
            created_at: self.created_at,
            id: self.id.deep_view(),
        }
    }
}

impl Clone for HogRecord {
    /// The copy has the same model as the value cloned.
    fn clone(&self) -> (r: Self)
        ensures
            r@ == self@,
    {
        HogRecord {
            log_timestamp: self.log_timestamp,
            log_level: clone_opt_string(&self.log_level),
            log_message: self.log_message.clone(),
            log_data: clone_opt_value(&self.log_data),
            log_type: clone_opt_string(&self.log_type),
            log_source: clone_opt_string(&self.log_source),
            log_source_id: clone_opt_string(&self.log_source_id),
            hog_uuid: clone_opt_string(&self.hog_uuid),
            hog_timestamp: self.hog_timestamp,
            created_at: self.created_at,
            id: clone_opt_string(&self.id),
        }
    }
}

/// The same record, with `created_at` stamped to `now_ms`.
pub open spec fn restamped(v: HogRecordView, now_ms: i64) -> HogRecordView {
    HogRecordView { created_at: Some(now_ms), ..v }
}

} // verus!
