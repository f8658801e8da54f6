//! What several commands share: the dry-run report and the token-limit
//! check.
use vstd::prelude::*;

use crate::config::Config;
use crate::error::PipelineError;
use crate::output::dry_run::{ChunkPlan, DryRunResult};
use crate::tokens::TokenCheck;

verus! {

/// The dry-run report of a command: its token estimate and the model
/// settings, with a chunk plan.
pub fn dry_run_result(command: &str, tokens_estimated: usize, config: &Config, plan: ChunkPlan) -> (r: DryRunResult)
    ensures
        r.command@ == command@,
        r.tokens_estimated == tokens_estimated,
        r.warn_threshold == 8000,
        r.error_threshold == 16000,
        r.exceeds_warning == (tokens_estimated > 8000),
        r.exceeds_error == (tokens_estimated > 16000),
        r.chunking == plan,
        r.files@.len() == 0,
        r.provider@ == config.provider.name_spec(),
        r.model@ == config.model@,
        r.timeout_secs == config.timeout_secs,
{
    DryRunResult::new(command, tokens_estimated, config.provider.name(), config.model.as_str(), config.timeout_secs)
        .with_chunking(plan)
}

/// What a token check asks for: nothing, a warning to print (its message),
/// or a token-limit error.
pub fn validate_token_limits(check: TokenCheck) -> (r: Result<Option<String>, PipelineError>)
    ensures
        match check {
            TokenCheck::WithinLimits(_) => r == Ok::<Option<String>, PipelineError>(None),
            TokenCheck::Warning { message, .. } => r == Ok::<Option<String>, PipelineError>(Some(message)),
            TokenCheck::Error { message, .. } => r == Err::<Option<String>, PipelineError>(PipelineError::TokenLimit(message)),
        },
{
    match check {
        TokenCheck::WithinLimits(_) => Ok(None),
        TokenCheck::Warning { message, .. } => Ok(Some(message)),
        TokenCheck::Error { message, .. } => Err(PipelineError::TokenLimit(message)),
    }
}

} // verus!
