//! Verified core of a scheduled weather-forecast ingestion pipeline.
//!
//! The library holds the provider-shape parsing (columnar JSON bodies to
//! row records), the request construction, the idempotent-ingest rules and
//! the orchestration decisions; the thin I/O shell around it lives outside.

pub mod config;
pub mod errors;
pub mod fetch;
pub mod forecast;
pub mod ingest;
pub mod json;
pub mod jsontext;
pub mod numtext;
pub mod orchestrate;
pub mod station;
pub mod time;
