//! The advanced, multi-criteria search request shape.

use vstd::prelude::*;

use crate::models::options::OptionsRequest;
use crate::models::options::Value;

verus! {

/// Sort direction for one advanced search criterion.
#[derive(Clone, Copy, Debug, PartialEq, Eq, Structural)]
pub enum SortType {
    Ascending,
    Descending,
}

/// Where and how to deliver results out of band.
#[derive(Debug)]
pub struct AdvancedCallbackOptions {
    pub webhook: Option<String>,
    pub headers: Option<Value>,
    pub method: Option<String>,
}

/// One field-level search criterion.
#[derive(Debug)]
pub struct AdvancedFieldOptions {
    pub field: Option<String>,
    pub value: Option<Value>,
    pub limit: Option<i64>,
    pub partial: Option<bool>,
    pub case_sensitive: Option<bool>,
    pub sort: Option<SortType>,
}

/// A paged, multi-criteria search request.
#[derive(Debug)]
pub struct AdvancedOptionsRequest {
    pub pagination_token: Option<String>,
    pub advanced_options: Option<Vec<AdvancedFieldOptions>>,
    pub simple_options: Option<OptionsRequest>,
}

} // verus!
