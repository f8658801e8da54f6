//! Partial results: with `--partial`, what succeeded is reported alongside
//! the chunks that failed.

use vstd::prelude::*;
use super::{ExitCode, ExitStatus, OutputMeta};
use super::basic::{Fix, ReviewIssue};

verus! {

/// Partial review result when some chunks failed.
#[derive(Debug, Clone)]
pub struct PartialReviewResult {
    /// Issues found in successfully processed chunks
    pub issues: Vec<ReviewIssue>,
    /// Files/chunks that were successfully processed
    pub chunks_processed: Vec<String>,
    /// Files/chunks that failed to process
    pub chunks_failed: Vec<ChunkFailureInfo>,
    /// Summary of the partial review
    pub summary: String,
}

/// Partial fix result when some chunks failed.
#[derive(Debug, Clone)]
pub struct PartialFixResult {
    /// Fixes from successfully processed chunks
    pub fixes: Vec<Fix>,
    /// Files/chunks that were successfully processed
    pub chunks_processed: Vec<String>,
    /// Files/chunks that failed to process
    pub chunks_failed: Vec<ChunkFailureInfo>,
    /// Diagnosis summary
    pub diagnosis: String,
}

/// Information about a failed chunk.
#[derive(Debug, Clone)]
pub struct ChunkFailureInfo {
    /// Identifier for the failed chunk
    pub chunk_id: String,
    /// Error message describing the failure
    pub error: String,
}

impl ExitStatus for PartialReviewResult {
    /// Always issues found: some chunks failed.
    fn exit_code(&self) -> (r: ExitCode)
        ensures
            r == ExitCode::IssuesFound,
    {
        ExitCode::IssuesFound
    }
}

impl ExitStatus for PartialFixResult {
    /// Always issues found: some chunks failed.
    fn exit_code(&self) -> (r: ExitCode)
        ensures
            r == ExitCode::IssuesFound,
    {
        ExitCode::IssuesFound
    }
}

/// Response wrapper for partial failures: the partial results with
/// metadata, marked partial.
#[derive(Debug, Clone)]
pub struct PartialFailureResponse<T> {
    /// Metadata about the operation
    pub meta: OutputMeta,
    /// Partial results from successful chunks
    pub partial_results: T,
    /// Whether this is a partial result (always true)
    pub partial: bool,
}

impl<T> PartialFailureResponse<T> {
    /// A partial failure response.
    pub fn new(partial_results: T, meta: OutputMeta) -> (r: Self)
        ensures
            r.partial_results == partial_results,
            r.meta == meta,
            r.partial,
    {
        PartialFailureResponse { meta, partial_results, partial: true }
    }
}

} // verus!
