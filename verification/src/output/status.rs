//! Output of the status command.

use vstd::prelude::*;
use super::{CommandOutput, ExitCode, ExitStatus};
use crate::text::{
    chars_of, decimal, eq_str, join, join_strings, lines, push_chars, push_decimal, push_str, push_string, split_lines,
    string_views, to_owned_string, views,
};

verus! {

/// A single status check result.
#[derive(Debug, Clone)]
pub struct StatusCheck {
    /// Name of the check
    pub name: String,
    /// Whether the check passed
    pub passed: bool,
    /// Human-readable message describing the result
    pub message: String,
    /// Additional details (only shown in verbose mode)
    pub details: Option<String>,
}

impl StatusCheck {
    /// A passing check.
    pub fn pass(name: &str, message: &str) -> (r: Self)
        ensures
            r.name@ == name@,
            r.passed,
            r.message@ == message@,
            r.details is None,
    {
        StatusCheck { name: to_owned_string(name), passed: true, message: to_owned_string(message), details: None }
    }

    /// A failing check.
    pub fn fail(name: &str, message: &str) -> (r: Self)
        ensures
            r.name@ == name@,
            !r.passed,
            r.message@ == message@,
            r.details is None,
    {
        StatusCheck { name: to_owned_string(name), passed: false, message: to_owned_string(message), details: None }
    }

    /// The check with details added.
    pub fn with_details(self, details: &str) -> (r: Self)
        ensures
            r.details matches Some(d) && d@ == details@,
            r.name == self.name,
            r.passed == self.passed,
            r.message == self.message,
    {
        let mut r = self;
        r.details = Some(to_owned_string(details));
        r
    }
}

/// Additional information shown in verbose mode.
#[derive(Debug, Clone)]
pub struct VerboseInfo {
    /// Response time in milliseconds
    pub response_time_ms: Option<u64>,
    /// Available models (if retrieved)
    pub available_models: Option<Vec<String>>,
    /// Whether the configured model is available
    pub model_available: Option<bool>,
}

/// Result from the status command.
#[derive(Debug, Clone)]
pub struct StatusResult {
    /// Overall status: true if all checks passed
    pub ok: bool,
    /// Provider name
    pub provider: String,
    /// Provider URL
    pub provider_url: String,
    /// Configured model
    pub model: String,
    /// Whether an API key is set
    pub api_key_set: bool,
    /// Individual check results
    pub checks: Vec<StatusCheck>,
    /// Warnings (non-fatal issues)
    pub warnings: Vec<String>,
    /// Verbose mode information
    pub verbose: Option<VerboseInfo>,
}

/// Every check passed.
pub open spec fn all_passed(checks: Seq<StatusCheck>) -> bool {
    forall|i: int| 0 <= i < checks.len() ==> (#[trigger] checks[i]).passed
}

/// A status built by `StatusResult::new` and then only `add_check` of these
/// checks in turn holds exactly those checks, and is ok exactly when every
/// one passed (once a check fails, the status stays failed). `states[i]` is
/// the status after the first `i` checks.
pub proof fn lemma_status_history(states: Seq<StatusResult>, checks: Seq<StatusCheck>)
    requires
        states.len() == checks.len() + 1,
        states[0].ok,
        states[0].checks@.len() == 0,
        forall|i: int| 0 <= i < checks.len() ==> {
            &&& #[trigger] states[i + 1].checks@ == states[i].checks@.push(checks[i])
            &&& states[i + 1].ok == (states[i].ok && checks[i].passed)
        },
    ensures
        states.last().checks@ == checks,
        states.last().ok == all_passed(checks),
    decreases checks.len(),
{
    if checks.len() == 0 {
        assert(states[0].checks@ =~= checks);
    } else {
        let n = checks.len() - 1;
        let ps = states.drop_last();
        let pc = checks.drop_last();
        assert forall|i: int| 0 <= i < pc.len() implies {
            &&& #[trigger] ps[i + 1].checks@ == ps[i].checks@.push(pc[i])
            &&& ps[i + 1].ok == (ps[i].ok && pc[i].passed)
        } by {
            assert(ps[i + 1] == states[i + 1] && ps[i] == states[i] && pc[i] == checks[i]);
            assert(states[i + 1].checks@ == states[i].checks@.push(checks[i]));
        }
        lemma_status_history(ps, pc);
        assert(states[n + 1].checks@ == states[n].checks@.push(checks[n]));
        assert(ps.last() == states[n]);
        assert(states.last().checks@ =~= checks);
        assert(all_passed(checks) == (all_passed(pc) && checks[n].passed)) by {
            if all_passed(pc) && checks[n].passed {
                assert forall|i: int| 0 <= i < checks.len() implies (#[trigger] checks[i]).passed by {
                    if i < n {
                        assert(checks[i] == pc[i]);
                    }
                }
            }
            if all_passed(checks) {
                assert forall|i: int| 0 <= i < pc.len() implies (#[trigger] pc[i]).passed by {
                    assert(pc[i] == checks[i]);
                }
            }
        }
    }
}

impl StatusResult {
    /// A status result with no checks yet: fine so far.
    pub fn new(provider: &str, provider_url: &str, model: &str, api_key_set: bool) -> (r: Self)
        ensures
            r.ok,
            r.provider@ == provider@,
            r.provider_url@ == provider_url@,
            r.model@ == model@,
            r.api_key_set == api_key_set,
            r.checks@.len() == 0,
            r.warnings@.len() == 0,
            r.verbose is None,
    {
        StatusResult {
            ok: true,
            provider: to_owned_string(provider),
            provider_url: to_owned_string(provider_url),
            model: to_owned_string(model),
            api_key_set,
            checks: Vec::new(),
            warnings: Vec::new(),
            verbose: None,
        }
    }

    /// Add a check; a failing one makes the whole status fail.
    pub fn add_check(&mut self, check: StatusCheck)
        ensures
            final(self).checks@ == old(self).checks@.push(check),
            final(self).ok == (old(self).ok && check.passed),
            final(self).warnings == old(self).warnings,
            final(self).verbose == old(self).verbose,
            final(self).provider == old(self).provider,
            final(self).provider_url == old(self).provider_url,
            final(self).model == old(self).model,
            final(self).api_key_set == old(self).api_key_set,
    {
        if !check.passed {
            self.ok = false;
        }
        self.checks.push(check);
    }

    /// Add a warning.
    pub fn add_warning(&mut self, warning: String)
        ensures
            final(self).warnings@ == old(self).warnings@.push(warning),
            final(self).checks == old(self).checks,
            final(self).ok == old(self).ok,
            final(self).verbose == old(self).verbose,
            final(self).provider == old(self).provider,
            final(self).provider_url == old(self).provider_url,
            final(self).model == old(self).model,
            final(self).api_key_set == old(self).api_key_set,
    {
        self.warnings.push(warning);
    }

    /// Set verbose information.
    pub fn set_verbose(&mut self, verbose: VerboseInfo)
        ensures
            final(self).verbose == Some(verbose),
            final(self).checks == old(self).checks,
            final(self).warnings == old(self).warnings,
            final(self).ok == old(self).ok,
            final(self).provider == old(self).provider,
            final(self).provider_url == old(self).provider_url,
            final(self).model == old(self).model,
            final(self).api_key_set == old(self).api_key_set,
    {
        self.verbose = Some(verbose);
    }
}

/// The lines of one check: its status, name and message, then its details
/// (each line indented).
pub open spec fn check_lines(c: StatusCheck) -> Seq<Seq<char>> {
    seq!["  "@ + (if c.passed { "[ok]"@ } else { "[FAIL]"@ }) + " "@ + c.name@ + ": "@ + c.message@] + match c.details {
        Some(d) => lines(d@).map_values(|l: Seq<char>| "      "@ + l),
        None => seq![],
    }
}

/// The lines of all checks.
pub open spec fn checks_lines(v: Seq<StatusCheck>) -> Seq<Seq<char>>
    decreases v.len(),
{
    if v.len() == 0 { seq![] } else { checks_lines(v.drop_last()) + check_lines(v.last()) }
}

/// The available models shown: all, or the first ten and how many more.
pub open spec fn model_list(models: Seq<Seq<char>>) -> Seq<char> {
    if models.len() <= 10 {
        join(models, ", "@)
    } else {
        join(models.take(10), ", "@) + ", ... and "@ + decimal((models.len() - 10) as nat) + " more"@
    }
}

/// The verbose part of the report.
pub open spec fn verbose_lines(v: VerboseInfo) -> Seq<Seq<char>> {
    seq![seq![], "Details:"@] + match v.response_time_ms {
        Some(t) => seq!["  Response time: "@ + decimal(t as nat) + "ms"@],
        None => seq![],
    } + match v.model_available {
        Some(a) => seq!["  Model status: "@ + (if a { "available"@ } else { "not found"@ })],
        None => seq![],
    } + match v.available_models {
        Some(ms) => seq!["  Available models: "@ + model_list(string_views(ms@))],
        None => seq![],
    }
}

/// The lines of the status report.
pub open spec fn status_lines(r: StatusResult) -> Seq<Seq<char>> {
    seq![
        if r.ok { "Ursix Status: OK"@ } else { "Ursix Status: FAILED"@ },
        seq![],
        "Provider:  "@ + r.provider@ + " ("@ + r.provider_url@ + ")"@,
        "Model:     "@ + r.model@,
        "API Key:   "@ + (if r.api_key_set { "set"@ } else { "not set"@ }),
        seq![],
        "Checks:"@,
    ] + checks_lines(r.checks@) + (if r.warnings@.len() > 0 {
        seq![seq![], "Warnings:"@] + string_views(r.warnings@).map_values(|w: Seq<char>| "  - "@ + w)
    } else {
        seq![]
    }) + match r.verbose {
        Some(v) => verbose_lines(v),
        None => seq![],
    }
}

fn push_check_lines(out: &mut Vec<String>, c: &StatusCheck)
    ensures
        string_views(final(out)@) == string_views(old(out)@) + check_lines(*c),
{
    let mut head = to_owned_string("  ");
    push_str(&mut head, if c.passed { "[ok]" } else { "[FAIL]" });
    push_str(&mut head, " ");
    push_str(&mut head, c.name.as_str());
    push_str(&mut head, ": ");
    push_str(&mut head, c.message.as_str());
    push_string(out, head);
    let ghost mid = string_views(out@);
    if let Some(d) = &c.details {
        let dv = chars_of(d.as_str());
        let ls = split_lines(&dv);
        let ghost dl = lines(d@).map_values(|l: Seq<char>| "      "@ + l);
        let mut i: usize = 0;
        while i < ls.len()
            invariant
                i <= ls@.len(),
                views(ls@) == lines(d@),
                dl == lines(d@).map_values(|l: Seq<char>| "      "@ + l),
                string_views(out@) == mid + dl.take(i as int),
            decreases ls@.len() - i,
        {
            let mut l = to_owned_string("      ");
            push_chars(&mut l, ls[i].as_slice());
            push_string(out, l);
            assert(dl.take(i + 1) =~= dl.take(i as int).push(dl[i as int]));
            i += 1;
        }
        assert(dl.take(ls@.len() as int) =~= dl);
    }
    assert(string_views(out@) =~= string_views(old(out)@) + check_lines(*c));
}

fn push_prefixed(out: &mut Vec<String>, items: &Vec<String>, prefix: &str)
    ensures
        string_views(final(out)@) == string_views(old(out)@) + string_views(items@).map_values(|w: Seq<char>| prefix@ + w),
{
    let ghost target = string_views(items@).map_values(|w: Seq<char>| prefix@ + w);
    let mut i: usize = 0;
    while i < items.len()
        invariant
            i <= items@.len(),
            target == string_views(items@).map_values(|w: Seq<char>| prefix@ + w),
            string_views(out@) == string_views(old(out)@) + target.take(i as int),
        decreases items@.len() - i,
    {
        let mut l = to_owned_string(prefix);
        push_str(&mut l, items[i].as_str());
        push_string(out, l);
        assert(target.take(i + 1) =~= target.take(i as int).push(target[i as int]));
        i += 1;
    }
    assert(target.take(items@.len() as int) =~= target);
}

fn model_list_text(models: &Vec<String>) -> (r: String)
    ensures
        r@ == model_list(string_views(models@)),
{
    if models.len() <= 10 {
        return join_strings(models.as_slice(), ", ");
    }
    let mut first: Vec<String> = Vec::new();
    let mut i: usize = 0;
    while i < 10
        invariant
            i <= 10 < models@.len(),
            string_views(first@) == string_views(models@).take(i as int),
        decreases 10 - i,
    {
        push_string(&mut first, models[i].clone());
        assert(string_views(models@).take(i + 1) =~= string_views(models@).take(i as int).push(models@[i as int]@));
        i += 1;
    }
    let mut r = join_strings(first.as_slice(), ", ");
    push_str(&mut r, ", ... and ");
    push_decimal(&mut r, (models.len() - 10) as u64);
    push_str(&mut r, " more");
    r
}

fn push_verbose_lines(out: &mut Vec<String>, v: &VerboseInfo)
    ensures
        string_views(final(out)@) == string_views(old(out)@) + verbose_lines(*v),
{
    push_string(out, String::new());
    push_string(out, to_owned_string("Details:"));
    if let Some(t) = v.response_time_ms {
        let mut l = to_owned_string("  Response time: ");
        push_decimal(&mut l, t);
        push_str(&mut l, "ms");
        push_string(out, l);
    }
    if let Some(a) = v.model_available {
        let mut l = to_owned_string("  Model status: ");
        push_str(&mut l, if a { "available" } else { "not found" });
        push_string(out, l);
    }
    if let Some(ms) = &v.available_models {
        let mut l = to_owned_string("  Available models: ");
        let list = model_list_text(ms);
        push_str(&mut l, list.as_str());
        push_string(out, l);
    }
    assert(string_views(out@) =~= string_views(old(out)@) + verbose_lines(*v));
}

impl CommandOutput for StatusResult {
    /// Overall status, provider, model, key, the checks, warnings and the
    /// verbose details, one per line.
    fn render_human(&self) -> (r: String)
        ensures
            r@ == join(status_lines(*self), "\n"@),
    {
        let mut out: Vec<String> = Vec::new();
        push_string(&mut out, to_owned_string(if self.ok { "Ursix Status: OK" } else { "Ursix Status: FAILED" }));
        push_string(&mut out, String::new());
        let mut p = to_owned_string("Provider:  ");
        push_str(&mut p, self.provider.as_str());
        push_str(&mut p, " (");
        push_str(&mut p, self.provider_url.as_str());
        push_str(&mut p, ")");
        push_string(&mut out, p);
        let mut m = to_owned_string("Model:     ");
        push_str(&mut m, self.model.as_str());
        push_string(&mut out, m);
        let mut k = to_owned_string("API Key:   ");
        push_str(&mut k, if self.api_key_set { "set" } else { "not set" });
        push_string(&mut out, k);
        push_string(&mut out, String::new());
        push_string(&mut out, to_owned_string("Checks:"));
        let ghost head = string_views(out@);
        let mut i: usize = 0;
        while i < self.checks.len()
            invariant
                i <= self.checks@.len(),
                string_views(out@) == head + checks_lines(self.checks@.take(i as int)),
            decreases self.checks@.len() - i,
        {
            push_check_lines(&mut out, &self.checks[i]);
            assert(self.checks@.take(i + 1).drop_last() =~= self.checks@.take(i as int));
            i += 1;
        }
        assert(self.checks@.take(self.checks@.len() as int) =~= self.checks@);
        let ghost after_checks = string_views(out@);
        if self.warnings.len() > 0 {
            push_string(&mut out, String::new());
            push_string(&mut out, to_owned_string("Warnings:"));
            push_prefixed(&mut out, &self.warnings, "  - ");
        }
        let ghost after_warnings = string_views(out@);
        if let Some(v) = &self.verbose {
            push_verbose_lines(&mut out, v);
        }
        assert(string_views(out@) =~= status_lines(*self));
        join_strings(out.as_slice(), "\n")
    }
}

/// The exit code a failing status gets from its first failing check that
/// names a cause: API key or configuration (user error), or connectivity
/// (transient); else a user error.
pub open spec fn failed_checks_code(v: Seq<StatusCheck>) -> ExitCode
    decreases v.len(),
{
    if v.len() == 0 {
        ExitCode::UserError
    } else if !v[0].passed && (v[0].name@ == "api_key"@ || v[0].name@ == "config"@) {
        ExitCode::UserError
    } else if !v[0].passed && v[0].name@ == "connectivity"@ {
        ExitCode::TransientError
    } else {
        failed_checks_code(v.drop_first())
    }
}

impl ExitStatus for StatusResult {
    /// Success when all checks passed; else by the first failing check.
    fn exit_code(&self) -> (r: ExitCode)
        ensures
            r == if self.ok { ExitCode::Success } else { failed_checks_code(self.checks@) },
    {
        if self.ok {
            return ExitCode::Success;
        }
        let mut i: usize = 0;
        assert(self.checks@.skip(0) =~= self.checks@);
        while i < self.checks.len()
            invariant
                !self.ok,
                i <= self.checks@.len(),
                failed_checks_code(self.checks@) == failed_checks_code(self.checks@.skip(i as int)),
            decreases self.checks@.len() - i,
        {
            let c = &self.checks[i];
            let nv = chars_of(c.name.as_str());
            assert(self.checks@.skip(i as int)[0] == self.checks@[i as int]);
            if !c.passed {
                if eq_str(&nv, "api_key") || eq_str(&nv, "config") {
                    return ExitCode::UserError;
                }
                if eq_str(&nv, "connectivity") {
                    return ExitCode::TransientError;
                }
            }
            assert(self.checks@.skip(i as int).drop_first() =~= self.checks@.skip(i + 1));
            i += 1;
        }
        ExitCode::UserError
    }
}

} // verus!
