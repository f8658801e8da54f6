//! Output of the configuration listing.

use vstd::prelude::*;
use super::{CommandOutput, ExitCode, ExitStatus};
use crate::text::{join, push_str};

verus! {

/// Result from the `config` command.
#[derive(Debug)]
pub struct ConfigResult {
    /// Configuration entries
    pub entries: Vec<ConfigEntry>,
}

/// A single configuration entry.
#[derive(Debug)]
pub struct ConfigEntry {
    /// Configuration key
    pub key: String,
    /// Configuration value
    pub value: String,
}

/// The lines `key = value` of the entries.
pub open spec fn entry_lines(v: Seq<ConfigEntry>) -> Seq<Seq<char>> {
    v.map_values(|e: ConfigEntry| e.key@ + " = "@ + e.value@)
}

impl CommandOutput for ConfigResult {
    /// One `key = value` line per entry.
    fn render_human(&self) -> (r: String)
        ensures
            r@ == join(entry_lines(self.entries@), "\n"@),
    {
        let mut r = String::new();
        let mut i: usize = 0;
        while i < self.entries.len()
            invariant
                i <= self.entries@.len(),
                r@ == join(entry_lines(self.entries@).take(i as int), "\n"@),
            decreases self.entries@.len() - i,
        {
            let ghost before = r@;
            if i > 0 {
                push_str(&mut r, "\n");
            }
            push_str(&mut r, self.entries[i].key.as_str());
            push_str(&mut r, " = ");
            push_str(&mut r, self.entries[i].value.as_str());
            proof {
                let t = entry_lines(self.entries@).take(i + 1);
                assert(t.drop_last() =~= entry_lines(self.entries@).take(i as int));
                if i == 0 {
                    assert(r@ =~= t[0]);
                } else {
                    assert(r@ =~= before + "\n"@ + t.last());
                }
            }
            i += 1;
        }
        assert(entry_lines(self.entries@).take(self.entries@.len() as int) =~= entry_lines(self.entries@));
        r
    }
}

impl ExitStatus for ConfigResult {
    /// Always success.
    fn exit_code(&self) -> (r: ExitCode)
        ensures
            r == ExitCode::Success,
    {
        ExitCode::Success
    }
}

} // verus!
