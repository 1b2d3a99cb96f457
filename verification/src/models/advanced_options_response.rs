//! The advanced search response shape.

use vstd::prelude::*;

use crate::models::hog::Hog;

verus! {

/// One page of advanced search results.
#[derive(Debug)]
pub struct AdvancedOptionsResponse {
    pub pagination_token: Option<String>,
    pub document_count: i64,
    pub hogs: Vec<Hog>,
}

} // verus!
