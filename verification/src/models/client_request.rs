//! The client-facing shape of one log record, as accepted at ingestion.

use vstd::prelude::*;

use crate::models::options::SpecValue;
use crate::models::options::Value;

verus! {

/// Client-supplied log fields: the timestamp is the RFC 3339 text the
/// client sent; structured data is optional.
#[derive(Debug)]
pub struct ClientRequest {
    pub log_timestamp: String,
    pub log_level: Option<String>,
    pub log_message: String,
    pub log_data: Option<Value>,
    pub log_type: Option<String>,
    pub log_source: Option<String>,
    pub log_source_id: Option<String>,
}

/// The mathematical shape of a [`ClientRequest`].
pub ghost struct ClientRequestView {
    pub log_timestamp: Seq<char>,
    pub log_level: Option<Seq<char>>,
    pub log_message: Seq<char>,
    pub log_data: Option<SpecValue>,
    pub log_type: Option<Seq<char>>,
    pub log_source: Option<Seq<char>>,
    pub log_source_id: Option<Seq<char>>,
}

impl View for ClientRequest {
    type V = ClientRequestView;

    open spec fn view(&self) -> ClientRequestView {
        ClientRequestView {
            log_timestamp: self.log_timestamp@,
            log_level: self.log_level.deep_view(),
            log_message: self.log_message@,
            log_data: self.log_data.deep_view(),
            log_type: self.log_type.deep_view(),
            log_source: self.log_source.deep_view(),
            log_source_id: self.log_source_id.deep_view(),
        }
    }
}

} // verus!
