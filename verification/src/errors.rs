//! The typed error vocabulary of the pipeline.

use vstd::prelude::*;

verus! {

/// Why a provider payload was rejected.
#[derive(Debug, Clone, PartialEq, Eq)]
pub enum ParseError {
    /// An expected key is absent, or its value has the wrong type.
    MissingField(String),
    /// A key is present but its value is malformed (bad number, bad
    /// date-time text, out of range for its column).
    InvalidField(String),
    /// The metadata's spot table had this many entries instead of exactly
    /// one; no entry is ever picked silently.
    AmbiguousSpot(usize),
    /// The payload is not JSON at all, with the decoder's message.
    Syntax(String),
}

/// Why one target's retrieval failed.
#[derive(Debug, Clone, PartialEq, Eq)]
pub enum FetchError {
    /// The priming response carried no cookies.
    MissingCookies,
    /// Cookie values could not be decoded as text.
    InvalidCookies(String),
    /// A transport-level failure or an HTTP error status.
    RequestFailed(String),
    /// The payload arrived but could not be parsed.
    Parse(ParseError),
    /// Anything else.
    Other(String),
}

/// A structured report of a storage-engine error.
#[derive(Debug, Clone, PartialEq, Eq)]
pub struct DbErrorInfo {
    /// The engine's error code (for the one storage backend in use, the
    /// five-character SQLSTATE), when the engine reported one.
    pub code: Option<String>,
    pub message: String,
}

/// Why persisting a record failed.
#[derive(Debug, Clone, PartialEq, Eq)]
pub enum IngestError {
    /// A structured, non-uniqueness storage error.
    Database(DbErrorInfo),
    /// Any other failure.
    Other(String),
}

} // verus!
