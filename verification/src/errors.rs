//! Error taxonomy of the client.

use vstd::prelude::*;

verus! {

/// What can go wrong while listening for configuration updates.
///
/// Per-frame failures (`JsonParse`, `Utf8Error`) are absorbed by the
/// ingestion loop; only `RetriesExhausted` terminates it.
#[derive(Debug)]
pub enum ConfigError {
    /// Connection establishment or mid-stream transport failure.
    Request(String),
    /// A data-frame payload was not the expected JSON document.
    JsonParse(String),
    /// A received chunk was not valid UTF-8.
    Utf8Error,
    /// A single-shot listen ended before any configuration was decoded.
    NoConfigReceived,
    /// The bound on consecutive transport failures was reached.
    RetriesExhausted,
    /// Any other configuration error.
    GenericError(String),
}

} // verus!
