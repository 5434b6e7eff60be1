//! Typed bindings for a ledger's REST API: endpoint values that turn into
//! requests, and operation records parsed from JSON into typed variants.
pub mod asset;
pub mod endpoint;
pub mod error;
pub mod json;
pub mod operation;
