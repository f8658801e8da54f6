//! Output types for commands, rendered as human-readable text; JSON
//! rendering of the same values happens at the program's edge.

use vstd::prelude::*;

pub mod ask;
pub mod basic;
pub mod commit;
pub mod config;
pub mod derive;
pub mod dry_run;
pub mod error;
pub mod explain;
pub mod fix;
pub mod init;
pub mod partial;
pub mod review;
pub mod status;

verus! {

/// Current schema version for JSON output.
pub const SCHEMA_VERSION: &'static str = "1";

/// Exit codes for commands.
///
/// - 0: Success (command completed, no issues)
/// - 1: Issues found (review/fix found problems to report)
/// - 2: User error (bad args, config, input - user can fix)
/// - 3: Transient error (network, rate limit - retry may help)
/// - 4: Permanent error (auth, parse, internal - retry won't help)
#[derive(Debug, Clone, Copy, PartialEq, Eq, Structural)]
pub enum ExitCode {
    /// Command completed successfully with no issues
    Success,
    /// Command completed but found issues (e.g., review found problems)
    IssuesFound,
    /// User-fixable errors: bad arguments, config, missing files
    UserError,
    /// Transient errors: network issues, rate limits, timeouts (retry may help)
    TransientError,
    /// Permanent errors: auth failures, parse errors, internal bugs (retry won't help)
    PermanentError,
}

/// Numeric value of an exit code.
pub open spec fn exit_code_value(code: ExitCode) -> u8 {
    match code {
        ExitCode::Success => 0,
        ExitCode::IssuesFound => 1,
        ExitCode::UserError => 2,
        ExitCode::TransientError => 3,
        ExitCode::PermanentError => 4,
    }
}

impl ExitCode {
    /// The process exit status for this code.
    pub fn value(self) -> (r: u8)
        ensures
            r == exit_code_value(self),
    {
        match self {
            ExitCode::Success => 0,
            ExitCode::IssuesFound => 1,
            ExitCode::UserError => 2,
            ExitCode::TransientError => 3,
            ExitCode::PermanentError => 4,
        }
    }
}

impl From<ExitCode> for u8 {
    fn from(code: ExitCode) -> (r: u8) {
        code.value()
    }
}

impl vstd::std_specs::convert::FromSpecImpl<ExitCode> for u8 {
    open spec fn obeys_from_spec() -> bool {
        true
    }

    open spec fn from_spec(code: ExitCode) -> u8 {
        exit_code_value(code)
    }
}

impl From<ExitCode> for i32 {
    fn from(code: ExitCode) -> (r: i32) {
        code.value() as i32
    }
}

impl vstd::std_specs::convert::FromSpecImpl<ExitCode> for i32 {
    open spec fn obeys_from_spec() -> bool {
        true
    }

    open spec fn from_spec(code: ExitCode) -> i32 {
        exit_code_value(code) as i32
    }
}

/// Types (errors) that map to an exit code.
pub trait ToExitCode {
    /// Returns the appropriate exit code for this error.
    fn to_exit_code(&self) -> ExitCode;
}

/// Types that report an exit status.
pub trait ExitStatus {
    /// Returns the exit code for this result.
    fn exit_code(&self) -> ExitCode;
}

/// Output mode for command results.
#[derive(Debug, Clone, Copy, PartialEq, Eq, Structural)]
pub enum OutputMode {
    /// Human-readable text output
    Human,
    /// JSON output for scripting
    Json,
}

/// Command outputs that render as human-readable text.
pub trait CommandOutput {
    /// Render as human-readable text.
    fn render_human(&self) -> String;
}

/// Metadata included with all JSON output.
#[derive(Debug, Clone)]
pub struct OutputMeta {
    /// Schema version for output format compatibility
    pub schema_version: &'static str,
    /// Model used for generation
    pub model: Option<String>,
    /// Provider used (ollama, openai)
    pub provider: Option<String>,
    /// Total tokens used across all calls
    pub tokens_used: Option<usize>,
    /// Total duration in milliseconds
    pub duration_ms: u64,
    /// Number of chunks processed (1 for non-chunked)
    pub chunks: usize,
}

impl OutputMeta {
    /// Metadata with just the schema version (for errors).
    pub fn minimal() -> (r: Self)
        ensures
            r.schema_version == SCHEMA_VERSION,
            r.model is None,
            r.provider is None,
            r.tokens_used is None,
            r.duration_ms == 0,
            r.chunks == 0,
    {
        OutputMeta {
            schema_version: SCHEMA_VERSION,
            model: None,
            provider: None,
            tokens_used: None,
            duration_ms: 0,
            chunks: 0,
        }
    }

    /// Full metadata for successful operations.
    pub fn new(model: &str, provider: &str, duration_ms: u64, chunks: usize) -> (r: Self)
        ensures
            r.schema_version == SCHEMA_VERSION,
            r.model matches Some(m) && m@ == model@,
            r.provider matches Some(p) && p@ == provider@,
            r.tokens_used is None,
            r.duration_ms == duration_ms,
            r.chunks == chunks,
    {
        OutputMeta {
            schema_version: SCHEMA_VERSION,
            model: Some(model.to_string()),
            provider: Some(provider.to_string()),
            tokens_used: None,
            duration_ms,
            chunks,
        }
    }

    /// Add token usage information.
    pub fn with_tokens(self, tokens: usize) -> (r: Self)
        ensures
            r.tokens_used == Some(tokens),
            r.schema_version == self.schema_version,
            r.model == self.model,
            r.provider == self.provider,
            r.duration_ms == self.duration_ms,
            r.chunks == self.chunks,
    {
        let mut m = self;
        m.tokens_used = Some(tokens);
        m
    }
}

impl Default for OutputMeta {
    fn default() -> (r: Self)
        ensures
            r.schema_version == SCHEMA_VERSION,
            r.model is None,
            r.provider is None,
            r.tokens_used is None,
            r.duration_ms == 0,
            r.chunks == 0,
    {
        Self::minimal()
    }
}

} // verus!
