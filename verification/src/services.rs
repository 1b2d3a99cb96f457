//! The decision logic of the record service.

pub mod hog_service;
