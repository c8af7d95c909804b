//! The error kinds a region analysis can end in. Each one is terminal for
//! the single request that raised it; nothing is retried.

use vstd::prelude::*;

verus! {

/// Why an analysis or lookup request failed.
#[derive(Debug)]
pub enum AnalysisError {
    /// The corner input was malformed: not exactly two corners of exactly
    /// two coordinates each.
    InvalidBounds,
    /// The external source could not be reached; the payload describes the
    /// transport failure.
    UpstreamRequestFailed(String),
    /// The external source answered with the contained non-success status.
    UpstreamStatusError(u16),
    /// The response body did not match the expected shape; the payload
    /// describes the mismatch.
    UpstreamParseError(String),
}

} // verus!
