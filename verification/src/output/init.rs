//! Output of the init command.

use vstd::prelude::*;
use super::{CommandOutput, ExitCode, ExitStatus};
use crate::text::{join, push_str, string_views, to_owned_string, join_strings};

verus! {

/// Result from the init command.
#[derive(Debug)]
pub struct InitResult {
    /// Whether initialization succeeded
    pub success: bool,
    /// Files that were created
    pub files_created: Vec<String>,
    /// Provider that was configured
    pub provider: String,
    /// Model that was configured
    pub model: String,
    /// Whether the connectivity test passed (if one was run)
    pub connectivity_test: Option<bool>,
    /// Warning messages (non-fatal issues)
    pub warnings: Vec<String>,
}

/// Items listed as `  - item`.
pub open spec fn bullets(v: Seq<Seq<char>>) -> Seq<Seq<char>> {
    v.map_values(|x: Seq<char>| "  - "@ + x)
}

/// The lines of the init report.
pub open spec fn init_lines(r: InitResult) -> Seq<Seq<char>> {
    let status = if r.success { "Ursix initialized successfully!"@ } else { "Ursix initialization completed with issues."@ };
    let files = if r.files_created@.len() > 0 {
        seq!["Created files:"@] + bullets(string_views(r.files_created@)) + seq![seq![]]
    } else {
        seq![]
    };
    let conn = match r.connectivity_test {
        Some(true) => seq!["Connectivity test: passed"@],
        Some(false) => seq!["Connectivity test: failed"@],
        None => seq![],
    };
    let warnings = if r.warnings@.len() > 0 {
        seq![seq![], "Warnings:"@] + bullets(string_views(r.warnings@))
    } else {
        seq![]
    };
    seq![status, seq![]] + files + seq!["Provider: "@ + r.provider@, "Model: "@ + r.model@] + conn + warnings
}

fn push_bullets(lines: &mut Vec<String>, items: &Vec<String>)
    ensures
        string_views(final(lines)@) == string_views(old(lines)@) + bullets(string_views(items@)),
{
    let mut i: usize = 0;
    while i < items.len()
        invariant
            i <= items@.len(),
            string_views(lines@) == string_views(old(lines)@) + bullets(string_views(items@).take(i as int)),
        decreases items@.len() - i,
    {
        let ghost before = lines@;
        let mut l = to_owned_string("  - ");
        push_str(&mut l, items[i].as_str());
        lines.push(l);
        proof {
            assert(string_views(lines@) =~= string_views(before).push(l@));
            assert(bullets(string_views(items@).take(i + 1)) =~= bullets(string_views(items@).take(i as int)).push("  - "@ + items@[i as int]@));
        }
        i += 1;
    }
    assert(string_views(items@).take(items@.len() as int) =~= string_views(items@));
}

fn push_line(lines: &mut Vec<String>, l: String)
    ensures
        string_views(final(lines)@) == string_views(old(lines)@).push(l@),
{
    let ghost before = lines@;
    lines.push(l);
    assert(string_views(lines@) =~= string_views(before).push(l@));
}

impl CommandOutput for InitResult {
    /// Status, created files, provider and model, connectivity, warnings;
    /// one per line.
    fn render_human(&self) -> (r: String)
        ensures
            r@ == join(init_lines(*self), "\n"@),
    {
        let mut lines: Vec<String> = Vec::new();
        if self.success {
            push_line(&mut lines, to_owned_string("Ursix initialized successfully!"));
        } else {
            push_line(&mut lines, to_owned_string("Ursix initialization completed with issues."));
        }
        push_line(&mut lines, String::new());
        if self.files_created.len() > 0 {
            push_line(&mut lines, to_owned_string("Created files:"));
            push_bullets(&mut lines, &self.files_created);
            push_line(&mut lines, String::new());
        }
        let mut p = to_owned_string("Provider: ");
        push_str(&mut p, self.provider.as_str());
        push_line(&mut lines, p);
        let mut m = to_owned_string("Model: ");
        push_str(&mut m, self.model.as_str());
        push_line(&mut lines, m);
        match self.connectivity_test {
            Some(true) => push_line(&mut lines, to_owned_string("Connectivity test: passed")),
            Some(false) => push_line(&mut lines, to_owned_string("Connectivity test: failed")),
            None => {},
        }
        if self.warnings.len() > 0 {
            push_line(&mut lines, String::new());
            push_line(&mut lines, to_owned_string("Warnings:"));
            push_bullets(&mut lines, &self.warnings);
        }
        assert(string_views(lines@) =~= init_lines(*self));
        join_strings(lines.as_slice(), "\n")
    }
}

impl ExitStatus for InitResult {
    /// Success, or a user error when initialization had issues.
    fn exit_code(&self) -> (r: ExitCode)
        ensures
            r == if self.success { ExitCode::Success } else { ExitCode::UserError },
    {
        if self.success { ExitCode::Success } else { ExitCode::UserError }
    }
}

} // verus!
