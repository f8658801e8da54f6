//! Line commands of the interactive session.
//!
//! A line is either a prompt for the model or, when it starts with `/`, a
//! session command such as `/model NAME`.
use vstd::prelude::*;

use crate::text::{
    chars_of, copy_range, lowercase, string_from_chars, str_equal, to_lowercase, to_owned_string,
    trim, trim_bounds,
};

verus! {

/// What one input line asks of the session.
#[derive(Debug, Clone, PartialEq, Eq)]
pub enum Command {
    /// Leave the session.
    Exit,
    /// Forget the conversation so far.
    Clear,
    /// Show the list of commands.
    Help,
    /// Switch to the named model.
    Model(String),
    /// Send the text to the model.
    Prompt(String),
    /// A `/` command that is not known (or lacks its argument).
    Unknown(String),
    /// Nothing but white space.
    Empty,
}

/// [`Command`] with its texts as character sequences.
pub enum CommandView {
    Exit,
    Clear,
    Help,
    Model(Seq<char>),
    Prompt(Seq<char>),
    Unknown(Seq<char>),
    Empty,
}

impl View for Command {
    type V = CommandView;

    open spec fn view(&self) -> CommandView {
        match self {
            Command::Exit => CommandView::Exit,
            Command::Clear => CommandView::Clear,
            Command::Help => CommandView::Help,
            Command::Model(m) => CommandView::Model(m@),
            Command::Prompt(p) => CommandView::Prompt(p@),
            Command::Unknown(u) => CommandView::Unknown(u@),
            Command::Empty => CommandView::Empty,
        }
    }
}

/// Index of the first space in `s` (its length when there is none).
pub open spec fn space_index(s: Seq<char>) -> nat
    decreases s.len(),
{
    if s.len() == 0 || s[0] == ' ' {
        0
    } else {
        1 + space_index(s.drop_first())
    }
}

/// The argument of a `/model` line: the trimmed text after the first space,
/// when there is a space.
pub open spec fn command_argument(t: Seq<char>) -> Seq<char> {
    let k = space_index(t) as int;
    if k < t.len() {
        trim(t.skip(k + 1 as int))
    } else {
        Seq::empty()
    }
}

/// The command that a line stands for.
pub open spec fn parse_spec(input: Seq<char>) -> CommandView {
    let t = trim(input);
    if t.len() == 0 {
        CommandView::Empty
    } else if t[0] != '/' {
        CommandView::Prompt(t)
    } else {
        let w = lowercase(t.take(space_index(t) as int));
        if w == "/exit"@ || w == "/quit"@ || w == "/q"@ {
            CommandView::Exit
        } else if w == "/clear"@ {
            CommandView::Clear
        } else if w == "/help"@ || w == "/h"@ || w == "/?"@ {
            CommandView::Help
        } else if w == "/model"@ || w == "/m"@ {
            if command_argument(t).len() > 0 {
                CommandView::Model(command_argument(t))
            } else {
                CommandView::Unknown("/model (missing model name)"@)
            }
        } else {
            CommandView::Unknown(w)
        }
    }
}

proof fn lemma_space_index(s: Seq<char>, k: int)
    requires
        0 <= k <= s.len(),
        forall|j: int| 0 <= j < k ==> s[j] != ' ',
        k == s.len() || s[k] == ' ',
    ensures
        space_index(s) == k,
    decreases k,
{
    if k > 0 {
        let d = s.drop_first();
        assert forall|j: int| 0 <= j < k - 1 implies d[j] != ' ' by {
            assert(d[j] == s[j + 1]);
        }
        if k < s.len() {
            assert(d[k - 1] == s[k]);
        }
        lemma_space_index(d, k - 1);
    }
}

/// Reads one input line of the session.
pub fn parse_input(input: &str) -> (r: Command)
    ensures
        r@ == parse_spec(input@),
{
    let chars = chars_of(input);
    let (a, b) = trim_bounds(&chars);
    if a == b {
        return Command::Empty;
    }
    let t = copy_range(&chars, a, b);
    if t[0] != '/' {
        return Command::Prompt(string_from_chars(&t));
    }
    let mut k: usize = 0;
    while k < t.len() && t[k] != ' '
        invariant
            k <= t@.len(),
            forall|j: int| 0 <= j < k ==> t@[j] != ' ',
        decreases t@.len() - k,
    {
        k += 1;
    }
    proof {
        lemma_space_index(t@, k as int);
    }
    let word = string_from_chars(&copy_range(&t, 0, k));
    assert(word@ == t@.take(k as int));
    let w = to_lowercase(word.as_str());
    if str_equal(w.as_str(), "/exit") || str_equal(w.as_str(), "/quit") || str_equal(w.as_str(), "/q") {
        Command::Exit
    } else if str_equal(w.as_str(), "/clear") {
        Command::Clear
    } else if str_equal(w.as_str(), "/help") || str_equal(w.as_str(), "/h") || str_equal(w.as_str(), "/?") {
        Command::Help
    } else if str_equal(w.as_str(), "/model") || str_equal(w.as_str(), "/m") {
        if k < t.len() {
            let rest = copy_range(&t, k + 1, t.len());
            assert(rest@ == t@.skip(k + 1));
            let (c, d) = trim_bounds(&rest);
            if c < d {
                return Command::Model(string_from_chars(&copy_range(&rest, c, d)));
            }
        }
        Command::Unknown(to_owned_string("/model (missing model name)"))
    } else {
        Command::Unknown(w)
    }
}

} // verus!
