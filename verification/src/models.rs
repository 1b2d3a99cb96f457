//! Domain types: client requests, stored records, search options and
//! their validation.

pub mod advanced_options_request;
pub mod advanced_options_response;
pub mod client_request;
pub mod hog;
pub mod hog_client_schema;
pub mod hog_record;
pub mod options;
pub mod statistics;
