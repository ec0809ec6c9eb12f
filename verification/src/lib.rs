//! A typed client layer for a remote batch-job API.
//!
//! The library builds and checks everything that can be decided locally:
//! resource-path resolution (with a configurable override), request plans
//! for each operation, the JSON wire body for a batch submission, the URL
//! encoding of listing queries, and the mapping from transport outcomes to
//! the typed error taxonomy. Performing the HTTP call itself is left to the
//! caller, who executes a returned [`plan::HttpRequest`] and hands the
//! outcome back to [`response`].

pub mod client;
pub mod config;
pub mod error;
pub mod json;
pub mod laws;
pub mod paths;
pub mod plan;
pub mod query;
pub mod response;
pub mod types;
