//! The API-facing shape of one stored log record.

use vstd::prelude::*;

use crate::models::client_request::ClientRequest;
use crate::models::client_request::ClientRequestView;

verus! {

/// A stored record as the API presents it: the client's fields plus
/// the system-assigned identifier and timestamps. Timestamps are
/// milliseconds since the epoch; `id` is the store's hexadecimal
/// object identifier.
#[derive(Debug)]
pub struct Hog {
    pub client_request: ClientRequest,
    pub hog_uuid: Option<String>,
    pub hog_timestamp: Option<i64>,
    pub id: Option<String>,
    pub created_at: Option<i64>,
}

/// The mathematical shape of a [`Hog`].
pub ghost struct HogView {
    pub client_request: ClientRequestView,
    pub hog_uuid: Option<Seq<char>>,
    pub hog_timestamp: Option<i64>,
    pub id: Option<Seq<char>>,
    pub created_at: Option<i64>,
}

impl View for Hog {
    type V = HogView;

    open spec fn view(&self) -> HogView {
        HogView {
            client_request: self.client_request@,
            hog_uuid: self.hog_uuid.deep_view(),
            hog_timestamp: self.hog_timestamp,
            id: self.id.deep_view(),
            created_at: self.created_at,
        }
    }
}

impl Hog {
    pub fn new(
        client_request: ClientRequest,
        hog_uuid: Option<String>,
        hog_timestamp: Option<i64>,
        id: Option<String>,
        created_at: Option<i64>,
    ) -> (r: Self)
        ensures
            r == (Hog { client_request, hog_uuid, hog_timestamp, id, created_at }),
    {
        Hog { client_request, hog_uuid, hog_timestamp, id, created_at }
    }
}

} // verus!
