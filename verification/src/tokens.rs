//! Token counting for input validation and chunking decisions.
//!
//! The heuristic mode counts about four characters per token, rounding up,
//! which slightly over-counts and so errs on the safe side for limit checks.

use vstd::prelude::*;
use crate::text::{decimal, push_decimal, push_str, to_owned_string};
use crate::config::TokenizerMode;
use crate::context::InputContext;

verus! {

/// Token count result.
#[derive(Debug, Clone, Copy)]
pub struct TokenCount {
    /// Number of tokens
    pub count: usize,
}

impl TokenCount {
    /// Create a new token count.
    pub fn new(count: usize) -> (r: Self)
        ensures
            r.count == count,
    {
        TokenCount { count }
    }
}

/// Token limit thresholds for warnings and errors.
#[derive(Debug, Clone)]
pub struct TokenLimits {
    /// Threshold above which to warn about quality/hallucination risk
    pub warn_threshold: usize,
    /// Threshold above which to error (require --chunk or shorter input)
    pub error_threshold: usize,
}

impl Default for TokenLimits {
    fn default() -> (r: Self)
        ensures
            r.warn_threshold == 8000,
            r.error_threshold == 16000,
    {
        TokenLimits { warn_threshold: 8000, error_threshold: 16000 }
    }
}

/// Result of checking a token count against limits.
#[derive(Debug)]
pub enum TokenCheck {
    /// Token count is within acceptable limits
    WithinLimits(TokenCount),
    /// Token count exceeds warning threshold but not error threshold
    Warning {
        /// The token count
        count: TokenCount,
        /// Warning message to display
        message: String,
    },
    /// Token count exceeds error threshold
    Error {
        /// The token count
        count: TokenCount,
        /// Error message to display
        message: String,
    },
}

/// Heuristic token count of `n` characters: `ceil(n / 4)`.
pub open spec fn heuristic_tokens(n: nat) -> nat {
    ((n + 3) / 4) as nat
}

/// Count tokens using the heuristic approximation of four characters per
/// token, rounded up.
pub fn count_tokens_heuristic(content: &str) -> (r: TokenCount)
    ensures
        r.count == heuristic_tokens(content@.len()),
{
    let n = content.unicode_len();
    TokenCount::new(n / 4 + if n % 4 == 0 { 0 } else { 1 })
}

/// Message of the error-level token check.
pub open spec fn over_error_message(count: usize, limit: usize) -> Seq<char> {
    "input has "@ + decimal(count as nat) + " tokens (>"@ + decimal(limit as nat)
        + " limit); use --chunk to process in parallel or reduce input size"@
}

/// Message of the warning-level token check.
pub open spec fn over_warning_message(count: usize, limit: usize) -> Seq<char> {
    "input has "@ + decimal(count as nat) + " tokens (>"@ + decimal(limit as nat)
        + " threshold); quality may be affected. consider using --chunk for better results"@
}

/// Check a token count against limits: an error above the error threshold, a
/// warning above the warning threshold, otherwise fine.
pub fn check_token_limits(count: TokenCount, limits: &TokenLimits) -> (r: TokenCheck)
    ensures
        match r {
            TokenCheck::Error { count: c, message } => count.count > limits.error_threshold && c.count
                == count.count && message@ == over_error_message(count.count, limits.error_threshold),
            TokenCheck::Warning { count: c, message } => limits.warn_threshold < count.count
                <= limits.error_threshold && c.count == count.count && message@ == over_warning_message(
                count.count,
                limits.warn_threshold,
            ),
            TokenCheck::WithinLimits(c) => count.count <= limits.warn_threshold && count.count
                <= limits.error_threshold && c.count == count.count,
        },
{
    if count.count > limits.error_threshold {
        let mut message = to_owned_string("input has ");
        push_decimal(&mut message, count.count as u64);
        push_str(&mut message, " tokens (>");
        push_decimal(&mut message, limits.error_threshold as u64);
        push_str(&mut message, " limit); use --chunk to process in parallel or reduce input size");
        TokenCheck::Error { count, message }
    } else if count.count > limits.warn_threshold {
        let mut message = to_owned_string("input has ");
        push_decimal(&mut message, count.count as u64);
        push_str(&mut message, " tokens (>");
        push_decimal(&mut message, limits.warn_threshold as u64);
        push_str(&mut message, " threshold); quality may be affected. consider using --chunk for better results");
        TokenCheck::Warning { count, message }
    } else {
        TokenCheck::WithinLimits(count)
    }
}


// ---------------------------------------------------------------------------
// Full tokenizer (the `tokenizers` crate)
// ---------------------------------------------------------------------------

#[verifier::external_type_specification]
#[verifier::external_body]
pub struct ExTokenizer(tokenizers::Tokenizer);

/// The number of tokens `tokenizers::Tokenizer::encode` (without special
/// tokens) yields for a text, or its error message. Nothing is claimed of
/// the count: it depends on the vocabulary that was loaded.
#[verifier::external_body]
fn encode_token_count(tokenizer: &tokenizers::Tokenizer, content: &str) -> (r: Result<usize, String>) {
    match tokenizer.encode(content, false) {
        Ok(encoding) => Ok(encoding.get_tokens().len()),
        Err(e) => Err(e.to_string()),
    }
}

/// The token count from what encoding a text gave: its number of tokens,
/// or the encoding's error message.
pub fn token_count_from_encoding(encoded: Result<usize, String>) -> (r: Result<TokenCount, String>)
    ensures
        match encoded {
            Ok(n) => r matches Ok(c) && c.count == n,
            Err(e) => r matches Err(m) && m@ == "tokenization failed: "@ + e@,
        },
{
    match encoded {
        Ok(n) => Ok(TokenCount::new(n)),
        Err(e) => {
            let mut m = to_owned_string("tokenization failed: ");
            push_str(&mut m, e.as_str());
            Err(m)
        },
    }
}

/// Count tokens with the full tokenizer; `tokenizer` is the loaded
/// tokenizer, or the message of the failure to load it. With a tokenizer,
/// the result is what [`token_count_from_encoding`] makes of its encoding.
pub fn count_tokens_full(content: &str, tokenizer: Result<&tokenizers::Tokenizer, String>) -> (r: Result<TokenCount, String>)
    ensures
        tokenizer matches Err(e) ==> (r matches Err(m) && m@ == "failed to load tokenizer: "@ + e@),
        tokenizer is Ok ==> (r matches Err(m) ==> exists|e: Seq<char>| m@ == "tokenization failed: "@ + e),
{
    let t = match tokenizer {
        Ok(t) => t,
        Err(e) => {
            let mut m = to_owned_string("failed to load tokenizer: ");
            push_str(&mut m, e.as_str());
            return Err(m);
        },
    };
    let encoded = encode_token_count(t, content);
    let ghost message = if encoded is Err { encoded->Err_0@ } else { Seq::<char>::empty() };
    let r = token_count_from_encoding(encoded);
    assert(r is Err ==> r->Err_0@ == "tokenization failed: "@ + message);
    r
}

/// Count tokens in a text in the given mode. The heuristic needs no
/// tokenizer; the full mode uses `tokenizer` (the loaded one, or the message
/// of the failure to load it).
pub fn count_tokens(content: &str, mode: TokenizerMode, tokenizer: Result<&tokenizers::Tokenizer, String>) -> (r: Result<TokenCount, String>)
    ensures
        mode == TokenizerMode::Heuristic ==> (r matches Ok(c) && c.count == heuristic_tokens(content@.len())),
        mode == TokenizerMode::Full ==> (tokenizer matches Err(e) ==> (r matches Err(m) && m@ == "failed to load tokenizer: "@ + e@)),
        mode == TokenizerMode::Full && tokenizer is Ok ==> (r matches Err(m) ==> exists|e: Seq<char>| m@ == "tokenization failed: "@ + e),
{
    match mode {
        TokenizerMode::Heuristic => Ok(count_tokens_heuristic(content)),
        TokenizerMode::Full => count_tokens_full(content, tokenizer),
    }
}

/// Count tokens of an input context.
pub fn count_context_tokens(context: &InputContext, mode: TokenizerMode, tokenizer: Result<&tokenizers::Tokenizer, String>) -> (r: Result<TokenCount, String>)
    ensures
        mode == TokenizerMode::Heuristic ==> (r matches Ok(c) && c.count == heuristic_tokens(context@.len())),
        mode == TokenizerMode::Full ==> (tokenizer matches Err(e) ==> (r matches Err(m) && m@ == "failed to load tokenizer: "@ + e@)),
        mode == TokenizerMode::Full && tokenizer is Ok ==> (r matches Err(m) ==> exists|e: Seq<char>| m@ == "tokenization failed: "@ + e),
{
    count_tokens(context.content(), mode, tokenizer)
}

} // verus!
