//! Verified core of a newsletter subscription service: configuration
//! selection, subscriber validation and the decisions of its HTTP handlers.
pub mod text;
pub mod config;
pub mod domain;
pub mod routes;
