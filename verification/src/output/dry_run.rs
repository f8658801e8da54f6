//! Output of `--dry-run`: the token estimate and the chunking plan, without
//! model calls.

use vstd::prelude::*;
use super::{CommandOutput, ExitCode, ExitStatus};
use crate::text::{decimal, push_decimal, push_str, to_owned_string, string_views};

verus! {

/// How chunks would be organised.
#[derive(Debug, Clone)]
pub struct ChunkPlan {
    /// Whether chunking would be used
    pub enabled: bool,
    /// Number of chunks that would be created
    pub chunk_count: Option<usize>,
    /// Breakdown by category (for review) or by file
    pub chunks: Vec<ChunkInfo>,
}

/// Information about a single chunk.
#[derive(Debug, Clone)]
pub struct ChunkInfo {
    /// Chunk identifier (e.g., "security", "style", or file name)
    pub id: String,
    /// Estimated tokens for this chunk
    pub tokens_estimated: usize,
    /// Files included in this chunk
    pub files: Vec<String>,
}

/// Result from dry-run mode.
#[derive(Debug)]
pub struct DryRunResult {
    /// Command that would be executed
    pub command: String,
    /// Estimated total input tokens
    pub tokens_estimated: usize,
    /// Token limit warning threshold
    pub warn_threshold: usize,
    /// Token limit error threshold
    pub error_threshold: usize,
    /// Whether the input exceeds the warning threshold
    pub exceeds_warning: bool,
    /// Whether the input exceeds the error threshold
    pub exceeds_error: bool,
    /// Chunking plan details
    pub chunking: ChunkPlan,
    /// Files that would be processed
    pub files: Vec<String>,
    /// Provider that would be used
    pub provider: String,
    /// Model that would be used
    pub model: String,
    /// Timeout in seconds
    pub timeout_secs: u64,
}

impl DryRunResult {
    /// A dry-run result with the default thresholds (8000 and 16000 tokens),
    /// no files and no chunking.
    pub fn new(command: &str, tokens_estimated: usize, provider: &str, model: &str, timeout_secs: u64) -> (r: Self)
        ensures
            r.command@ == command@,
            r.tokens_estimated == tokens_estimated,
            r.warn_threshold == 8000,
            r.error_threshold == 16000,
            r.exceeds_warning == (tokens_estimated > 8000),
            r.exceeds_error == (tokens_estimated > 16000),
            !r.chunking.enabled,
            r.chunking.chunk_count is None,
            r.chunking.chunks@.len() == 0,
            r.files@.len() == 0,
            r.provider@ == provider@,
            r.model@ == model@,
            r.timeout_secs == timeout_secs,
    {
        let warn_threshold: usize = 8000;
        let error_threshold: usize = 16000;
        DryRunResult {
            command: to_owned_string(command),
            tokens_estimated,
            warn_threshold,
            error_threshold,
            exceeds_warning: tokens_estimated > warn_threshold,
            exceeds_error: tokens_estimated > error_threshold,
            chunking: ChunkPlan { enabled: false, chunk_count: None, chunks: Vec::new() },
            files: Vec::new(),
            provider: to_owned_string(provider),
            model: to_owned_string(model),
            timeout_secs,
        }
    }

    /// Set the files that would be processed.
    pub fn with_files(self, files: Vec<String>) -> (r: Self)
        ensures
            r.files@ == files@,
            r.command == self.command,
            r.tokens_estimated == self.tokens_estimated,
            r.warn_threshold == self.warn_threshold,
            r.error_threshold == self.error_threshold,
            r.exceeds_warning == self.exceeds_warning,
            r.exceeds_error == self.exceeds_error,
            r.chunking == self.chunking,
            r.provider == self.provider,
            r.model == self.model,
            r.timeout_secs == self.timeout_secs,
    {
        let mut r = self;
        r.files = files;
        r
    }

    /// Set the chunking plan.
    pub fn with_chunking(self, plan: ChunkPlan) -> (r: Self)
        ensures
            r.chunking == plan,
            r.files == self.files,
            r.command == self.command,
            r.tokens_estimated == self.tokens_estimated,
            r.warn_threshold == self.warn_threshold,
            r.error_threshold == self.error_threshold,
            r.exceeds_warning == self.exceeds_warning,
            r.exceeds_error == self.exceeds_error,
            r.provider == self.provider,
            r.model == self.model,
            r.timeout_secs == self.timeout_secs,
    {
        let mut r = self;
        r.chunking = plan;
        r
    }
}

/// Lines listing files, each `"{prefix}{file}\n"`.
pub open spec fn file_lines(files: Seq<Seq<char>>, prefix: Seq<char>) -> Seq<char>
    decreases files.len(),
{
    if files.len() == 0 {
        seq![]
    } else {
        file_lines(files.drop_last(), prefix) + prefix + files.last() + "\n"@
    }
}

/// The lines of one chunk of the plan.
pub open spec fn chunk_lines(c: ChunkInfo) -> Seq<char> {
    "  - "@ + c.id@ + ": ~"@ + decimal(c.tokens_estimated as nat) + " tokens\n"@ + file_lines(string_views(c.files@), "      "@)
}

/// The lines of the chunks of the plan.
pub open spec fn chunks_lines(cs: Seq<ChunkInfo>) -> Seq<char>
    decreases cs.len(),
{
    if cs.len() == 0 {
        seq![]
    } else {
        chunks_lines(cs.drop_last()) + chunk_lines(cs.last())
    }
}

/// The configuration and token estimate part of the report.
pub open spec fn dry_run_head(d: DryRunResult) -> Seq<char> {
    "Dry run: "@ + d.command@ + "\n\nConfiguration:\n  Provider: "@ + d.provider@ + "\n  Model: "@ + d.model@
        + "\n  Timeout: "@ + decimal(d.timeout_secs as nat) + "s\n\nToken estimation:\n  Estimated tokens: "@
        + decimal(d.tokens_estimated as nat) + "\n  Warning threshold: "@ + decimal(d.warn_threshold as nat) + " "@
        + (if d.exceeds_warning { "(EXCEEDED)"@ } else { ""@ }) + "\n  Error threshold: "@ + decimal(d.error_threshold as nat)
        + " "@ + (if d.exceeds_error { "(EXCEEDED)"@ } else { ""@ }) + "\n"@
}

/// The files part of the report (nothing without files).
pub open spec fn dry_run_files(d: DryRunResult) -> Seq<char> {
    if d.files@.len() > 0 {
        "\nFiles ("@ + decimal(d.files@.len()) + "):\n"@ + file_lines(string_views(d.files@), "  - "@)
    } else {
        seq![]
    }
}

/// The chunking part of the report.
pub open spec fn dry_run_chunking(d: DryRunResult) -> Seq<char> {
    if d.chunking.enabled {
        "\nChunking: "@ + decimal(match d.chunking.chunk_count { Some(n) => n as nat, None => 0 }) + " chunks\n"@
            + chunks_lines(d.chunking.chunks@)
    } else {
        "\nChunking: disabled (single LLM call)\n"@
    }
}

/// The closing note of the report, when a threshold is exceeded.
pub open spec fn dry_run_note(d: DryRunResult) -> Seq<char> {
    if d.exceeds_error {
        "\nWARNING: Input exceeds error threshold. Use --chunk or reduce input size.\n"@
    } else if d.exceeds_warning {
        "\nNote: Input exceeds warning threshold. Consider using --chunk for better results.\n"@
    } else {
        seq![]
    }
}

/// The human-readable dry-run report.
pub open spec fn dry_run_text(d: DryRunResult) -> Seq<char> {
    dry_run_head(d) + dry_run_files(d) + dry_run_chunking(d) + dry_run_note(d)
}

fn push_file_lines(out: &mut String, files: &Vec<String>, prefix: &str)
    ensures
        final(out)@ == old(out)@ + file_lines(string_views(files@), prefix@),
{
    let mut i: usize = 0;
    while i < files.len()
        invariant
            i <= files@.len(),
            out@ == old(out)@ + file_lines(string_views(files@).take(i as int), prefix@),
        decreases files@.len() - i,
    {
        push_str(out, prefix);
        push_str(out, files[i].as_str());
        push_str(out, "\n");
        proof {
            let t = string_views(files@).take(i + 1);
            assert(t.drop_last() =~= string_views(files@).take(i as int));
        }
        i += 1;
    }
    assert(string_views(files@).take(files@.len() as int) =~= string_views(files@));
}

impl DryRunResult {
    fn push_head(&self, o: &mut String)
        ensures
            final(o)@ == old(o)@ + dry_run_head(*self),
    {
        push_str(o, "Dry run: ");
        push_str(o, self.command.as_str());
        push_str(o, "\n\nConfiguration:\n  Provider: ");
        push_str(o, self.provider.as_str());
        push_str(o, "\n  Model: ");
        push_str(o, self.model.as_str());
        push_str(o, "\n  Timeout: ");
        push_decimal(o, self.timeout_secs);
        push_str(o, "s\n\nToken estimation:\n  Estimated tokens: ");
        push_decimal(o, self.tokens_estimated as u64);
        push_str(o, "\n  Warning threshold: ");
        push_decimal(o, self.warn_threshold as u64);
        push_str(o, " ");
        push_str(o, if self.exceeds_warning { "(EXCEEDED)" } else { "" });
        push_str(o, "\n  Error threshold: ");
        push_decimal(o, self.error_threshold as u64);
        push_str(o, " ");
        push_str(o, if self.exceeds_error { "(EXCEEDED)" } else { "" });
        push_str(o, "\n");
        assert(final(o)@ =~= old(o)@ + dry_run_head(*self));
    }

    fn push_files(&self, o: &mut String)
        ensures
            final(o)@ == old(o)@ + dry_run_files(*self),
    {
        if self.files.len() > 0 {
            push_str(o, "\nFiles (");
            push_decimal(o, self.files.len() as u64);
            push_str(o, "):\n");
            push_file_lines(o, &self.files, "  - ");
            assert(final(o)@ =~= old(o)@ + dry_run_files(*self));
        } else {
            assert(final(o)@ =~= old(o)@ + dry_run_files(*self));
        }
    }

    fn push_chunking(&self, o: &mut String)
        ensures
            final(o)@ == old(o)@ + dry_run_chunking(*self),
    {
        if self.chunking.enabled {
            push_str(o, "\nChunking: ");
            let n: usize = match self.chunking.chunk_count {
                Some(n) => n,
                None => 0,
            };
            push_decimal(o, n as u64);
            push_str(o, " chunks\n");
            let ghost start = o@;
            let mut i: usize = 0;
            while i < self.chunking.chunks.len()
                invariant
                    i <= self.chunking.chunks@.len(),
                    o@ == start + chunks_lines(self.chunking.chunks@.take(i as int)),
                decreases self.chunking.chunks@.len() - i,
            {
                let c = &self.chunking.chunks[i];
                push_str(o, "  - ");
                push_str(o, c.id.as_str());
                push_str(o, ": ~");
                push_decimal(o, c.tokens_estimated as u64);
                push_str(o, " tokens\n");
                push_file_lines(o, &c.files, "      ");
                proof {
                    let t = self.chunking.chunks@.take(i + 1);
                    assert(t.drop_last() =~= self.chunking.chunks@.take(i as int));
                }
                i += 1;
            }
            assert(self.chunking.chunks@.take(self.chunking.chunks@.len() as int) =~= self.chunking.chunks@);
            assert(final(o)@ =~= old(o)@ + dry_run_chunking(*self));
        } else {
            push_str(o, "\nChunking: disabled (single LLM call)\n");
        }
    }

    fn push_note(&self, o: &mut String)
        ensures
            final(o)@ == old(o)@ + dry_run_note(*self),
    {
        if self.exceeds_error {
            push_str(o, "\nWARNING: Input exceeds error threshold. Use --chunk or reduce input size.\n");
        } else if self.exceeds_warning {
            push_str(o, "\nNote: Input exceeds warning threshold. Consider using --chunk for better results.\n");
        } else {
            assert(final(o)@ =~= old(o)@ + dry_run_note(*self));
        }
    }
}

impl CommandOutput for DryRunResult {
    /// The configuration, the token estimate against the thresholds, the
    /// files, the chunking plan, and a note when a threshold is exceeded.
    fn render_human(&self) -> (r: String)
        ensures
            r@ == dry_run_text(*self),
    {
        let mut o = String::new();
        self.push_head(&mut o);
        self.push_files(&mut o);
        self.push_chunking(&mut o);
        self.push_note(&mut o);
        assert(o@ =~= dry_run_text(*self));
        o
    }
}

impl ExitStatus for DryRunResult {
    /// Always success: a dry run only informs.
    fn exit_code(&self) -> (r: ExitCode)
        ensures
            r == ExitCode::Success,
    {
        ExitCode::Success
    }
}

} // verus!
