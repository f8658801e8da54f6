//! Repair of malformed JSON produced by language models.
//!
//! Models often wrap JSON in markdown fences, surround it with prose, use
//! Python literals or single quotes, leave trailing commas, or stop mid-value.
//! [`repair_json`] applies repairs in order of safety and checks the text with
//! `serde_json` after each phase, returning as soon as it parses.

use vstd::prelude::*;
use crate::text::{
    alphanumeric, byte_len, byte_length, char_is_alphanumeric,
    chars_of, copy_range, digit, find_from, matches_at, occurs_at, push_char,
    push_chars, push_str, skip_ws_end, join, join_strings, string_views, string_from_chars, to_owned_string, trim, trim_bounds, trim_end,
};

verus! {

// ---------------------------------------------------------------------------
// Outside functions: regular expressions and the JSON parser
// ---------------------------------------------------------------------------

/// What compiling `pattern` with `regex::Regex::new` and calling
/// `replace_all(haystack, replacement)` returns (`None` when the pattern does
/// not compile).
pub uninterp spec fn regex_replace_all_result(pattern: Seq<char>, haystack: Seq<char>, replacement: Seq<char>) -> Option<Seq<char>>;

/// `regex::Regex::new(pattern)` followed by `Regex::replace_all`; the result
/// is named by [`regex_replace_all_result`] and nothing more is claimed of it.
#[verifier::external_body]
fn regex_replace_all(pattern: &str, haystack: &str, replacement: &str) -> (r: Option<String>)
    ensures
        r matches Some(t) ==> regex_replace_all_result(pattern@, haystack@, replacement@) == Some(t@),
        r is None ==> regex_replace_all_result(pattern@, haystack@, replacement@) is None,
{
    match regex::Regex::new(pattern) {
        Ok(re) => Some(re.replace_all(haystack, replacement).into_owned()),
        Err(_) => None,
    }
}

/// What compiling `pattern` and calling `Regex::replace` (first match only)
/// returns (`None` when the pattern does not compile).
pub uninterp spec fn regex_replace_first_result(pattern: Seq<char>, haystack: Seq<char>, replacement: Seq<char>) -> Option<Seq<char>>;

/// `regex::Regex::new(pattern)` followed by `Regex::replace`; the result is
/// named by [`regex_replace_first_result`].
#[verifier::external_body]
fn regex_replace_first(pattern: &str, haystack: &str, replacement: &str) -> (r: Option<String>)
    ensures
        r matches Some(t) ==> regex_replace_first_result(pattern@, haystack@, replacement@) == Some(t@),
        r is None ==> regex_replace_first_result(pattern@, haystack@, replacement@) is None,
{
    match regex::Regex::new(pattern) {
        Ok(re) => Some(re.replace(haystack, replacement).into_owned()),
        Err(_) => None,
    }
}

/// What compiling `pattern` and calling `Regex::is_match` returns (`None`
/// when the pattern does not compile).
pub uninterp spec fn regex_is_match_result(pattern: Seq<char>, haystack: Seq<char>) -> Option<bool>;

/// `regex::Regex::new(pattern)` followed by `Regex::is_match`; the answer is
/// named by [`regex_is_match_result`].
#[verifier::external_body]
fn regex_is_match(pattern: &str, haystack: &str) -> (r: Option<bool>)
    ensures
        r == regex_is_match_result(pattern@, haystack@),
{
    match regex::Regex::new(pattern) {
        Ok(re) => Some(re.is_match(haystack)),
        Err(_) => None,
    }
}

/// First match of a compiled pattern with capture group 1: the byte offsets
/// where the whole match starts and ends, and the text of group 1.
pub struct CaptureMatch {
    pub start: usize,
    pub end: usize,
    pub group: String,
}

/// What compiling `pattern` and calling `Regex::captures` yields: `None` when
/// the pattern does not compile, `Some(None)` when there is no match or group 1
/// did not take part in it, else the whole match's byte offsets and group 1.
pub uninterp spec fn regex_captures_result(pattern: Seq<char>, haystack: Seq<char>) -> Option<Option<(usize, usize, Seq<char>)>>;

/// `regex::Regex::new(pattern)` followed by `Regex::captures`, reading the
/// whole match (group 0) and group 1; named by [`regex_captures_result`].
#[verifier::external_body]
fn regex_captures(pattern: &str, haystack: &str) -> (r: Option<Option<CaptureMatch>>)
    ensures
        match r {
            None => regex_captures_result(pattern@, haystack@) is None,
            Some(None) => regex_captures_result(pattern@, haystack@) == Some(None::<(usize, usize, Seq<char>)>),
            Some(Some(m)) => regex_captures_result(pattern@, haystack@) == Some(Some((m.start, m.end, m.group@))),
        },
{
    match regex::Regex::new(pattern) {
        Ok(re) => match re.captures(haystack) {
            Some(caps) => match (caps.get(0), caps.get(1)) {
                (Some(whole), Some(group)) => Some(Some(CaptureMatch {
                    start: whole.start(),
                    end: whole.end(),
                    group: group.as_str().to_string(),
                })),
                _ => Some(None),
            },
            None => Some(None),
        },
        Err(_) => None,
    }
}

/// What `serde_json::from_str::<serde_json::Value>` reports for a text:
/// `None` when it parses, else the error's `Display` text.
pub uninterp spec fn json_parse_error(text: Seq<char>) -> Option<Seq<char>>;

/// The text parses as a JSON value.
pub open spec fn json_valid(text: Seq<char>) -> bool {
    json_parse_error(text) is None
}

/// `serde_json::from_str::<serde_json::Value>`, keeping only the error's text;
/// named by [`json_parse_error`].
#[verifier::external_body]
pub(crate) fn json_check(text: &str) -> (r: Option<String>)
    ensures
        r matches Some(e) ==> json_parse_error(text@) == Some(e@),
        r is None ==> json_parse_error(text@) is None,
{
    match serde_json::from_str::<serde_json::Value>(text) {
        Ok(_) => None,
        Err(e) => Some(e.to_string()),
    }
}

// ---------------------------------------------------------------------------
// Result types
// ---------------------------------------------------------------------------

/// Types of repairs that can be applied to JSON.
#[derive(Debug, Clone, Copy, PartialEq, Eq, Structural)]
pub enum RepairKind {
    /// Removed markdown code fence
    RemovedCodeFence,
    /// Removed preamble text before JSON
    RemovedPreamble,
    /// Removed postamble text after JSON
    RemovedPostamble,
    /// Replaced single quotes with double quotes
    ReplacedSingleQuotes,
    /// Added quotes around unquoted keys
    QuotedKeys,
    /// Replaced Python True/False with true/false
    ReplacedPythonBooleans,
    /// Replaced Python None with null
    ReplacedPythonNone,
    /// Removed trailing commas
    RemovedTrailingCommas,
    /// Added missing commas between elements
    AddedMissingCommas,
    /// Escaped unescaped control characters
    EscapedControlChars,
    /// Added missing closing braces/brackets
    AddedMissingClosers,
}

// ---------------------------------------------------------------------------
// Lexical state shared by the scanners
// ---------------------------------------------------------------------------

/// Position relative to JSON string literals while scanning left to right.
pub struct LexState {
    pub in_string: bool,
    pub escape_next: bool,
}

/// One step of the string-literal tracking used by the brace matcher, the
/// literal replacer, the control-character escaper and the closer counter:
/// an escaped character is consumed, a backslash inside a string starts an
/// escape, and a double quote toggles the string state.
pub open spec fn lex_step(st: LexState, c: char) -> LexState {
    if st.escape_next {
        LexState { in_string: st.in_string, escape_next: false }
    } else if c == '\\' && st.in_string {
        LexState { in_string: true, escape_next: true }
    } else if c == '"' {
        LexState { in_string: !st.in_string, escape_next: false }
    } else {
        st
    }
}

/// The character is structural: neither escaped, nor a backslash or quote, nor inside a string.
pub open spec fn lex_structural(st: LexState, c: char) -> bool {
    !st.escape_next && !(c == '\\' && st.in_string) && c != '"' && !st.in_string
}

// ---------------------------------------------------------------------------
// Matching brace
// ---------------------------------------------------------------------------

/// Scan for the bracket that closes nesting level one, from character index `i`.
/// Returns that index, or the last index (zero for an empty text) when the
/// nesting never returns to zero.
pub open spec fn brace_scan(t: Seq<char>, i: int, depth: int, st: LexState) -> int
    decreases t.len() - i,
{
    if i >= t.len() {
        if t.len() == 0 { 0 } else { t.len() - 1 }
    } else {
        let c = t[i];
        if lex_structural(st, c) && (c == '{' || c == '[') {
            brace_scan(t, i + 1, depth + 1, st)
        } else if lex_structural(st, c) && (c == '}' || c == ']') {
            if depth - 1 == 0 {
                i
            } else {
                brace_scan(t, i + 1, depth - 1, st)
            }
        } else {
            brace_scan(t, i + 1, depth, lex_step(st, c))
        }
    }
}

/// Index of the bracket matching the opening one at character index `start`,
/// or the last index when there is none.
pub open spec fn matching_brace(t: Seq<char>, start: int) -> int {
    brace_scan(t, start, 0, LexState { in_string: false, escape_next: false })
}

fn lex_advance(st: &mut LexState, c: char)
    ensures
        *final(st) == lex_step(*old(st), c),
{
    if st.escape_next {
        st.escape_next = false;
    } else if c == '\\' && st.in_string {
        st.escape_next = true;
    } else if c == '"' {
        st.in_string = !st.in_string;
    }
}

fn is_structural(st: &LexState, c: char) -> (b: bool)
    ensures
        b == lex_structural(*st, c),
{
    !st.escape_next && !(c == '\\' && st.in_string) && c != '"' && !st.in_string
}

/// Finds the index of the bracket that matches the opening brace at character
/// index `start`, skipping brackets inside string literals; the last index when
/// the text is truncated.
fn find_matching_brace(chars: &[char], start: usize) -> (r: usize)
    ensures
        r == matching_brace(chars@, start as int),
{
    let mut depth: i128 = 0;
    let mut st = LexState { in_string: false, escape_next: false };
    let mut i = start;
    while i < chars.len()
        invariant
            start <= i,
            -(i - start) <= depth <= i - start,
            matching_brace(chars@, start as int) == brace_scan(chars@, i as int, depth as int, st),
        decreases chars@.len() - i,
    {
        let c = chars[i];
        if is_structural(&st, c) && (c == '{' || c == '[') {
            depth = depth + 1;
        } else if is_structural(&st, c) && (c == '}' || c == ']') {
            depth = depth - 1;
            if depth == 0 {
                return i;
            }
        } else {
            lex_advance(&mut st, c);
        }
        i += 1;
    }
    if chars.len() == 0 { 0 } else { chars.len() - 1 }
}

// ---------------------------------------------------------------------------
// Replacing literals outside strings
// ---------------------------------------------------------------------------

/// Every pattern is non-empty and ASCII, so that its length in bytes and in
/// characters agree.
pub open spec fn ascii_patterns(reps: Seq<(&str, &str)>) -> bool {
    forall|k: int| 0 <= k < reps.len() ==> (#[trigger] reps[k]).0@.len() > 0 && forall|j: int|
        0 <= j < reps[k].0@.len() ==> (reps[k].0@[j] as u32) < 0x80
}

/// `from` occurs at `i` as a whole token: not followed by an alphanumeric
/// character or `_`, and not preceded by one of those or by `"`.
pub open spec fn token_at(t: Seq<char>, from: Seq<char>, i: int) -> bool {
    let after = i + from.len();
    &&& occurs_at(t, from, i)
    &&& (after >= t.len() || (!alphanumeric(t[after]) && t[after] != '_'))
    &&& (i == 0 || (!alphanumeric(t[i - 1]) && t[i - 1] != '_' && t[i - 1] != '"'))
}

/// Index of the first replacement, from `k` on, whose pattern is a token at `i`.
pub open spec fn first_token_rep(t: Seq<char>, reps: Seq<(&str, &str)>, i: int, k: int) -> Option<int>
    decreases reps.len() - k,
{
    if k >= reps.len() || k < 0 {
        None
    } else if token_at(t, reps[k].0@, i) {
        Some(k)
    } else {
        first_token_rep(t, reps, i, k + 1)
    }
}

/// Left-to-right rewriting of the literal tokens outside string literals.
pub open spec fn replace_scan(t: Seq<char>, reps: Seq<(&str, &str)>, i: int, st: LexState, out: Seq<char>) -> Seq<char>
    decreases t.len() - i,
{
    if i >= t.len() || i < 0 {
        out
    } else {
        let c = t[i];
        if !lex_structural(st, c) {
            replace_scan(t, reps, i + 1, lex_step(st, c), out.push(c))
        } else {
            match first_token_rep(t, reps, i, 0) {
                Some(k) => {
                    let from = reps[k].0@;
                    if from.len() > 0 && i + from.len() <= t.len() {
                        replace_scan(t, reps, i + from.len(), st, out + reps[k].1@)
                    } else {
                        out
                    }
                },
                None => replace_scan(t, reps, i + 1, st, out.push(c)),
            }
        }
    }
}

/// The text with each listed token replaced where it stands outside string literals.
pub open spec fn replaced_outside_strings(t: Seq<char>, reps: Seq<(&str, &str)>) -> Seq<char> {
    replace_scan(t, reps, 0, LexState { in_string: false, escape_next: false }, seq![])
}

fn find_token_rep(t: &[char], reps: &[(&str, &str)], i: usize) -> (r: Option<(usize, Vec<char>)>)
    requires
        i < t@.len(),
        ascii_patterns(reps@),
    ensures
        match r {
            Some((k, from)) => k < reps@.len() && first_token_rep(t@, reps@, i as int, 0) == Some(k as int) && from@ == reps@[k as int].0@
                && i + from@.len() <= t@.len() && from@.len() > 0,
            None => first_token_rep(t@, reps@, i as int, 0) is None,
        },
{
    let mut k: usize = 0;
    while k < reps.len()
        invariant
            i < t@.len(),
            ascii_patterns(reps@),
            k <= reps@.len(),
            first_token_rep(t@, reps@, i as int, 0) == first_token_rep(t@, reps@, i as int, k as int),
        decreases reps@.len() - k,
    {
        let from = chars_of(reps[k].0);
        if matches_at(t, &from, i) {
            let n = t.len();
            assert(i + from@.len() <= n);
            let after = i + from.len();
            let complete = after >= t.len() || (!char_is_alphanumeric(t[after]) && t[after] != '_');
            let before_ok = i == 0 || (!char_is_alphanumeric(t[i - 1]) && t[i - 1] != '_' && t[i - 1] != '"');
            if complete && before_ok {
                proof {
                    assert(reps@[k as int].0@.len() > 0);
                }
                return Some((k, from));
            }
        }
        k += 1;
    }
    None
}

/// Replaces the listed tokens where they stand outside JSON string literals.
fn replace_outside_strings(input: &str, reps: &[(&str, &str)]) -> (r: String)
    requires
        ascii_patterns(reps@),
    ensures
        r@ == replaced_outside_strings(input@, reps@),
{
    let t = chars_of(input);
    let mut out = String::new();
    let mut st = LexState { in_string: false, escape_next: false };
    let mut i: usize = 0;
    while i < t.len()
        invariant
            t@ == input@,
            ascii_patterns(reps@),
            i <= t@.len(),
            replaced_outside_strings(input@, reps@) == replace_scan(t@, reps@, i as int, st, out@),
        decreases t@.len() - i,
    {
        let c = t[i];
        if !is_structural(&st, c) {
            lex_advance(&mut st, c);
            push_char(&mut out, c);
            i += 1;
        } else {
            match find_token_rep(&t, reps, i) {
                Some((k, from)) => {
                    push_str(&mut out, reps[k].1);
                    i += from.len();
                },
                None => {
                    push_char(&mut out, c);
                    i += 1;
                },
            }
        }
    }
    out
}

// ---------------------------------------------------------------------------
// Single quotes
// ---------------------------------------------------------------------------

/// Position relative to double- and single-quoted strings.
pub struct QuoteState {
    pub in_double: bool,
    pub in_single: bool,
    pub escape_next: bool,
}

/// One step of the quote rewriter: the next state.
pub open spec fn quote_next(st: QuoteState, c: char) -> QuoteState {
    if st.escape_next {
        QuoteState { escape_next: false, ..st }
    } else if c == '\\' {
        QuoteState { escape_next: true, ..st }
    } else if c == '"' && !st.in_single {
        QuoteState { in_double: !st.in_double, ..st }
    } else if c == '\'' && !st.in_double {
        QuoteState { in_single: !st.in_single, ..st }
    } else {
        st
    }
}

/// One step of the quote rewriter: what it writes. Single quotes outside
/// double-quoted strings become double quotes, and double quotes inside a
/// single-quoted string are escaped.
pub open spec fn quote_emit(st: QuoteState, c: char) -> Seq<char> {
    if st.escape_next || c == '\\' {
        seq![c]
    } else if c == '"' && !st.in_single {
        seq![c]
    } else if c == '\'' && !st.in_double {
        seq!['"']
    } else if c == '"' && st.in_single {
        seq!['\\', '"']
    } else {
        seq![c]
    }
}

/// Output of the quote rewriter from index `i` on.
pub open spec fn quote_scan(t: Seq<char>, i: int, st: QuoteState) -> Seq<char>
    decreases t.len() - i,
{
    if i >= t.len() || i < 0 {
        seq![]
    } else {
        quote_emit(st, t[i]) + quote_scan(t, i + 1, quote_next(st, t[i]))
    }
}

/// The text with single-quoted strings turned into double-quoted ones.
pub open spec fn single_quotes_fixed(t: Seq<char>) -> Seq<char> {
    quote_scan(t, 0, QuoteState { in_double: false, in_single: false, escape_next: false })
}

/// Replaces single quotes with double quotes for JSON compatibility.
fn fix_single_quotes(input: &str) -> (r: String)
    ensures
        r@ == single_quotes_fixed(input@),
{
    let t = chars_of(input);
    let mut out = String::new();
    let mut st = QuoteState { in_double: false, in_single: false, escape_next: false };
    let mut i: usize = 0;
    while i < t.len()
        invariant
            t@ == input@,
            i <= t@.len(),
            single_quotes_fixed(input@) == out@ + quote_scan(t@, i as int, st),
        decreases t@.len() - i,
    {
        let c = t[i];
        let ghost out0 = out@;
        let ghost st0 = st;
        if st.escape_next {
            st.escape_next = false;
            push_char(&mut out, c);
        } else if c == '\\' {
            st.escape_next = true;
            push_char(&mut out, c);
        } else if c == '"' && !st.in_single {
            st.in_double = !st.in_double;
            push_char(&mut out, c);
        } else if c == '\'' && !st.in_double {
            st.in_single = !st.in_single;
            push_char(&mut out, '"');
        } else if c == '"' && st.in_single {
            push_char(&mut out, '\\');
            push_char(&mut out, '"');
        } else {
            push_char(&mut out, c);
        }
        proof {
            assert(st == quote_next(st0, c));
            assert(out@ =~= out0 + quote_emit(st0, c));
            assert(out@ + quote_scan(t@, i + 1, st) =~= out0 + quote_scan(t@, i as int, st0));
        }
        i += 1;
    }
    out
}

// ---------------------------------------------------------------------------
// Control characters inside strings
// ---------------------------------------------------------------------------

/// Unicode general category `Cc` (`char::is_control`).
pub open spec fn is_control(c: char) -> bool {
    let n = c as u32;
    n <= 0x1F || (0x7F <= n && n <= 0x9F)
}

/// Lower-case hexadecimal digit.
pub open spec fn hex_digit(d: nat) -> char {
    if d < 10 {
        digit(d)
    } else if d == 10 {
        'a'
    } else if d == 11 {
        'b'
    } else if d == 12 {
        'c'
    } else if d == 13 {
        'd'
    } else if d == 14 {
        'e'
    } else {
        'f'
    }
}

/// What the escaper writes for one character.
pub open spec fn control_emit(st: LexState, c: char) -> Seq<char> {
    if !st.escape_next && st.in_string && c != '\\' && c != '"' {
        if c == '\n' {
            seq!['\\', 'n']
        } else if c == '\r' {
            seq!['\\', 'r']
        } else if c == '\t' {
            seq!['\\', 't']
        } else if is_control(c) {
            let n = c as u32 as nat;
            seq!['\\', 'u', '0', '0', hex_digit(n / 16), hex_digit(n % 16)]
        } else {
            seq![c]
        }
    } else {
        seq![c]
    }
}

/// Output of the escaper from index `i` on.
pub open spec fn control_scan(t: Seq<char>, i: int, st: LexState) -> Seq<char>
    decreases t.len() - i,
{
    if i >= t.len() || i < 0 {
        seq![]
    } else {
        control_emit(st, t[i]) + control_scan(t, i + 1, lex_step(st, t[i]))
    }
}

/// The text with raw control characters inside string literals escaped.
pub open spec fn control_chars_escaped(t: Seq<char>) -> Seq<char> {
    control_scan(t, 0, LexState { in_string: false, escape_next: false })
}

fn hex_char(d: u32) -> (c: char)
    requires
        d < 16,
    ensures
        c == hex_digit(d as nat),
{
    if d == 0 { '0' }
    else if d == 1 { '1' }
    else if d == 2 { '2' }
    else if d == 3 { '3' }
    else if d == 4 { '4' }
    else if d == 5 { '5' }
    else if d == 6 { '6' }
    else if d == 7 { '7' }
    else if d == 8 { '8' }
    else if d == 9 { '9' }
    else if d == 10 { 'a' }
    else if d == 11 { 'b' }
    else if d == 12 { 'c' }
    else if d == 13 { 'd' }
    else if d == 14 { 'e' }
    else { 'f' }
}

/// Escapes control characters inside strings.
fn escape_control_chars(input: &str) -> (r: String)
    ensures
        r@ == control_chars_escaped(input@),
{
    let t = chars_of(input);
    let mut out = String::new();
    let mut st = LexState { in_string: false, escape_next: false };
    let mut i: usize = 0;
    while i < t.len()
        invariant
            t@ == input@,
            i <= t@.len(),
            control_chars_escaped(input@) == out@ + control_scan(t@, i as int, st),
        decreases t@.len() - i,
    {
        let c = t[i];
        let ghost out0 = out@;
        let ghost st0 = st;
        if !st.escape_next && st.in_string && c != '\\' && c != '"' {
            if c == '\n' {
                push_char(&mut out, '\\');
                push_char(&mut out, 'n');
            } else if c == '\r' {
                push_char(&mut out, '\\');
                push_char(&mut out, 'r');
            } else if c == '\t' {
                push_char(&mut out, '\\');
                push_char(&mut out, 't');
            } else {
                let n = c as u32;
                if n <= 0x1F || (0x7F <= n && n <= 0x9F) {
                    push_char(&mut out, '\\');
                    push_char(&mut out, 'u');
                    push_char(&mut out, '0');
                    push_char(&mut out, '0');
                    push_char(&mut out, hex_char(n / 16));
                    push_char(&mut out, hex_char(n % 16));
                } else {
                    push_char(&mut out, c);
                }
            }
        } else {
            push_char(&mut out, c);
        }
        lex_advance(&mut st, c);
        proof {
            assert(out@ =~= out0 + control_emit(st0, c));
            assert(out@ + control_scan(t@, i + 1, st) =~= out0 + control_scan(t@, i as int, st0));
        }
        i += 1;
    }
    out
}

// ---------------------------------------------------------------------------
// Missing closers
// ---------------------------------------------------------------------------

/// Stack of expected closers after one character.
pub open spec fn closer_push(st: LexState, stack: Seq<char>, c: char) -> Seq<char> {
    if lex_structural(st, c) {
        if c == '{' {
            stack.push('}')
        } else if c == '[' {
            stack.push(']')
        } else if (c == '}' || c == ']') && stack.len() > 0 && stack.last() == c {
            stack.drop_last()
        } else {
            stack
        }
    } else {
        stack
    }
}

/// Expected closers and string state after scanning from index `i`.
pub open spec fn closer_scan(t: Seq<char>, i: int, st: LexState, stack: Seq<char>) -> (Seq<char>, LexState)
    decreases t.len() - i,
{
    if i >= t.len() || i < 0 {
        (stack, st)
    } else {
        closer_scan(t, i + 1, lex_step(st, t[i]), closer_push(st, stack, t[i]))
    }
}

/// Outcome of closing a truncated text: the text with a closing quote when it
/// ends inside a string and the open brackets closed innermost first, and
/// whether anything was added.
pub open spec fn closers_added(t: Seq<char>) -> (Seq<char>, bool) {
    let (stack, st) = closer_scan(t, 0, LexState { in_string: false, escape_next: false }, seq![]);
    if stack.len() == 0 {
        (t, false)
    } else {
        ((if st.in_string { t.push('"') } else { t }) + stack.reverse(), true)
    }
}

/// Adds missing closing braces/brackets for truncated JSON.
fn add_missing_closers(input: &str) -> (r: (String, Vec<RepairKind>))
    ensures
        r.0@ == closers_added(input@).0,
        r.1@ == (if closers_added(input@).1 { seq![RepairKind::AddedMissingClosers] } else { seq![] }),
{
    let t = chars_of(input);
    let mut stack: Vec<char> = Vec::new();
    let mut st = LexState { in_string: false, escape_next: false };
    let mut i: usize = 0;
    while i < t.len()
        invariant
            t@ == input@,
            i <= t@.len(),
            closer_scan(input@, 0, LexState { in_string: false, escape_next: false }, seq![])
                == closer_scan(t@, i as int, st, stack@),
        decreases t@.len() - i,
    {
        let c = t[i];
        if is_structural(&st, c) {
            if c == '{' {
                stack.push('}');
            } else if c == '[' {
                stack.push(']');
            } else if (c == '}' || c == ']') && stack.len() > 0 && stack[stack.len() - 1] == c {
                stack.pop();
            }
        }
        lex_advance(&mut st, c);
        i += 1;
    }
    let mut result = to_owned_string(input);
    if stack.len() == 0 {
        return (result, Vec::new());
    }
    if st.in_string {
        push_char(&mut result, '"');
    }
    let ghost base = result@;
    let mut k = stack.len();
    while k > 0
        invariant
            k <= stack@.len(),
            result@ == base + stack@.skip(k as int).reverse(),
        decreases k,
    {
        k -= 1;
        push_char(&mut result, stack[k]);
        proof {
            assert(stack@.skip(k as int).reverse() =~= stack@.skip(k + 1).reverse().push(stack@[k as int]));
        }
    }
    assert(stack@.skip(0) =~= stack@);
    (result, vec![RepairKind::AddedMissingClosers])
}

// ---------------------------------------------------------------------------
// Truncation
// ---------------------------------------------------------------------------

/// Whether the text ends inside a string literal; here a backslash escapes the
/// next character inside or outside strings.
pub open spec fn ends_in_string(t: Seq<char>, i: int, in_string: bool, escape_next: bool) -> bool
    decreases t.len() - i,
{
    if i >= t.len() || i < 0 {
        in_string
    } else if escape_next {
        ends_in_string(t, i + 1, in_string, false)
    } else if t[i] == '\\' {
        ends_in_string(t, i + 1, in_string, true)
    } else if t[i] == '"' {
        ends_in_string(t, i + 1, !in_string, false)
    } else {
        ends_in_string(t, i + 1, in_string, false)
    }
}

/// The JSON text looks cut off: after trailing white space it ends with `:`,
/// `,`, `[` or `{`, or it ends inside a string literal.
pub open spec fn looks_truncated_spec(t: Seq<char>) -> bool {
    let u = trim_end(t);
    ||| (u.len() > 0 && (u.last() == ':' || u.last() == ',' || u.last() == '[' || u.last() == '{'))
    ||| ends_in_string(u, 0, false, false)
}

/// Checks whether JSON appears to be truncated mid-value.
fn looks_truncated(input: &str) -> (b: bool)
    ensures
        b == looks_truncated_spec(input@),
{
    let t = chars_of(input);
    let end = skip_ws_end(&t);
    let u = copy_range(&t, 0, end);
    assert(u@ == trim_end(input@)) by {
        assert(t@.subrange(0, end as int) =~= t@.take(end as int));
    }
    if u.len() > 0 {
        let last = u[u.len() - 1];
        if last == ':' || last == ',' || last == '[' || last == '{' {
            return true;
        }
    }
    let mut in_string = false;
    let mut escape_next = false;
    let mut i: usize = 0;
    while i < u.len()
        invariant
            i <= u@.len(),
            ends_in_string(u@, 0, false, false) == ends_in_string(u@, i as int, in_string, escape_next),
        decreases u@.len() - i,
    {
        let c = u[i];
        if escape_next {
            escape_next = false;
        } else if c == '\\' {
            escape_next = true;
        } else if c == '"' {
            in_string = !in_string;
        }
        i += 1;
    }
    in_string
}

/// What the truncation error shows: `...` followed by the last 50
/// characters of the trimmed text (all of it when shorter).
pub open spec fn truncation_context_spec(t: Seq<char>) -> Seq<char> {
    let u = trim(t);
    let n = u.len() as int;
    seq!['.', '.', '.'] + u.skip(n - (if n < 50 { n } else { 50 }))
}

/// Context about where truncation occurred: the end of the trimmed text.
fn truncation_context(input: &str) -> (r: String)
    ensures
        r@ == truncation_context_spec(input@),
{
    let t = chars_of(input);
    let (a, b) = trim_bounds(&t);
    let u = copy_range(&t, a, b);
    let n = u.len();
    let preview: usize = if n < 50 { n } else { 50 };
    let start = n - preview;
    let mut r = String::new();
    push_char(&mut r, '.');
    push_char(&mut r, '.');
    push_char(&mut r, '.');
    let tail = copy_range(&u, start, n);
    push_chars(&mut r, &tail);
    proof {
        assert(u@.subrange(start as int, n as int) =~= u@.skip(start as int));
        assert(r@ =~= seq!['.', '.', '.'] + u@.skip(start as int));
    }
    r
}

// ---------------------------------------------------------------------------
// Code fences and the JSON block
// ---------------------------------------------------------------------------

/// A fence at the very start of the text.
pub const START_FENCE: &'static str = r"^```(?:json)?\s*\n?";
/// A fence at the very end of the text.
pub const END_FENCE: &'static str = r"\n?```\s*$";
/// A fenced block anywhere in the text; group 1 is its content.
pub const EMBEDDED_FENCE: &'static str = r"```(?:json)?\s*\n?([\s\S]*?)\n?```";

/// Content left after removing markdown fences, and whether text before or
/// after an embedded fence was dropped; `None` when there is no fence.
pub open spec fn fences_removed(input: Seq<char>) -> Option<(Seq<char>, bool, bool)> {
    match (regex_is_match_result(START_FENCE@, input), regex_is_match_result(END_FENCE@, input)) {
        (Some(has_start), Some(has_end)) => {
            if has_start || has_end {
                match regex_replace_first_result(START_FENCE@, input, seq![]) {
                    Some(r1) => match regex_replace_first_result(END_FENCE@, r1, seq![]) {
                        Some(r2) => Some((r2, false, false)),
                        None => None,
                    },
                    None => None,
                }
            } else {
                match regex_captures_result(EMBEDDED_FENCE@, input) {
                    Some(Some((start, end, group))) => Some((group, start > 0, end < byte_len(input))),
                    _ => None,
                }
            }
        },
        _ => None,
    }
}

/// Result of code fence removal.
struct FenceRemovalResult {
    content: String,
    had_preamble: bool,
    had_postamble: bool,
}

/// Removes markdown code fences, at the start/end of the text or embedded in it.
fn remove_code_fences(input: &str) -> (r: Option<FenceRemovalResult>)
    ensures
        match r {
            Some(f) => fences_removed(input@) == Some((f.content@, f.had_preamble, f.had_postamble)),
            None => fences_removed(input@) is None,
        },
{
    let has_start = match regex_is_match(START_FENCE, input) {
        Some(b) => b,
        None => {
            assert(regex_is_match_result(START_FENCE@, input@) is None);
            return None;
        },
    };
    let has_end = match regex_is_match(END_FENCE, input) {
        Some(b) => b,
        None => return None,
    };
    proof {
        reveal_strlit("");
        assert(""@ =~= Seq::<char>::empty());
    }
    if has_start || has_end {
        let r1 = match regex_replace_first(START_FENCE, input, "") {
            Some(r) => r,
            None => return None,
        };
        let r2 = match regex_replace_first(END_FENCE, r1.as_str(), "") {
            Some(r) => r,
            None => return None,
        };
        return Some(FenceRemovalResult { content: r2, had_preamble: false, had_postamble: false });
    }
    match regex_captures(EMBEDDED_FENCE, input) {
        Some(Some(m)) => {
            let chars = chars_of(input);
            let total = byte_length(&chars);
            Some(FenceRemovalResult {
                content: m.group,
                had_preamble: m.start > 0,
                had_postamble: (m.end as u128) < total,
            })
        },
        _ => None,
    }
}

/// Index of the first occurrence of `c`.
pub open spec fn first_index_of(s: Seq<char>, c: char) -> int {
    choose|i: int| 0 <= i < s.len() && s[i] == c && forall|j: int| 0 <= j < i ==> s[j] != c
}

/// The text contains the character.
pub open spec fn has_char(s: Seq<char>, c: char) -> bool {
    exists|i: int| 0 <= i < s.len() && s[i] == c
}

/// Text and repairs after fence removal.
pub open spec fn fence_stage(input: Seq<char>) -> (Seq<char>, Seq<RepairKind>) {
    match fences_removed(input) {
        Some((content, pre, post)) => (
            content,
            seq![RepairKind::RemovedCodeFence] + (if pre { seq![RepairKind::RemovedPreamble] } else { seq![] })
                + (if post { seq![RepairKind::RemovedPostamble] } else { seq![] }),
        ),
        None => (input, seq![]),
    }
}

/// Repairs recorded while cutting out the block: a preamble when the block
/// does not start at the first character, a postamble when it ends before the
/// last one; neither twice.
pub open spec fn block_repairs(r0: Seq<RepairKind>, sb: int, end: int, total: int) -> Seq<RepairKind> {
    let r1 = if sb > 0 && !r0.contains(RepairKind::RemovedPreamble) { r0.push(RepairKind::RemovedPreamble) } else { r0 };
    if end + 1 < total && !r1.contains(RepairKind::RemovedPostamble) { r1.push(RepairKind::RemovedPostamble) } else { r1 }
}

/// The block from the first `{` of `text` to its matching bracket, with the
/// repairs so far extended.
pub open spec fn block_of(text: Seq<char>, r0: Seq<RepairKind>) -> (Seq<char>, Seq<RepairKind>) {
    if !has_char(text, '{') {
        (seq![], r0)
    } else {
        let c0 = first_index_of(text, '{');
        let end = matching_brace(text, c0);
        (text.subrange(c0, end + 1), block_repairs(r0, c0, end, text.len() as int))
    }
}

/// The JSON block of a response: the text from the first `{` to the bracket
/// that closes it (or to the end), after removing fences, with the repairs
/// that records.
pub open spec fn extract_spec(input: Seq<char>) -> (Seq<char>, Seq<RepairKind>) {
    let (text, r0) = fence_stage(input);
    block_of(text, r0)
}

/// The bracket scan ends at a character of the text, at most one before
/// where it starts.
proof fn lemma_brace_scan_bounds(t: Seq<char>, i: int, depth: int, st: LexState)
    requires
        0 <= i <= t.len(),
        t.len() > 0,
    ensures
        i - 1 <= brace_scan(t, i, depth, st) < t.len(),
    decreases t.len() - i,
{
    if i < t.len() {
        lemma_brace_scan_bounds(t, i + 1, depth + 1, st);
        lemma_brace_scan_bounds(t, i + 1, depth - 1, st);
        lemma_brace_scan_bounds(t, i + 1, depth, lex_step(st, t[i]));
    }
}

fn contains_kind(v: &Vec<RepairKind>, k: RepairKind) -> (b: bool)
    ensures
        b == v@.contains(k),
{
    let mut i: usize = 0;
    while i < v.len()
        invariant
            i <= v@.len(),
            forall|j: int| 0 <= j < i ==> v@[j] != k,
        decreases v@.len() - i,
    {
        if v[i] == k {
            return true;
        }
        i += 1;
    }
    false
}

fn first_brace(text: &[char]) -> (r: Option<usize>)
    ensures
        match r {
            Some(c0) => has_char(text@, '{') && first_index_of(text@, '{') == c0 && c0 < text@.len() && text@[c0 as int] == '{',
            None => !has_char(text@, '{'),
        },
{
    let brace: [char; 1] = ['{'];
    match find_from(text, &brace, 0) {
        Some(c0) => {
            proof {
                assert(text@.subrange(c0 as int, c0 + 1)[0] == text@[c0 as int]);
                assert forall|j: int| 0 <= j < c0 implies text@[j] != '{' by {
                    if text@[j] == '{' {
                        assert(text@.subrange(j, j + 1) =~= brace@);
                        assert(occurs_at(text@, brace@, j));
                    }
                }
                assert(has_char(text@, '{'));
                let f = first_index_of(text@, '{');
                if f < c0 {
                    assert(text@[f] != '{');
                } else if f > c0 {
                    assert(text@[c0 as int] != '{');
                }
            }
            Some(c0)
        },
        None => {
            proof {
                if has_char(text@, '{') {
                    let i = choose|i: int| 0 <= i < text@.len() && text@[i] == '{';
                    assert(text@.subrange(i, i + 1) =~= brace@);
                    assert(occurs_at(text@, brace@, i));
                }
            }
            None
        },
    }
}

fn block_of_exec(text: &[char], repairs: Vec<RepairKind>) -> (r: (String, Vec<RepairKind>))
    ensures
        block_of(text@, repairs@) == (r.0@, r.1@),
{
    let mut repairs = repairs;
    let ghost r0 = repairs@;
    let c0 = match first_brace(text) {
        Some(c) => c,
        None => return (String::new(), repairs),
    };
    let end = find_matching_brace(text, c0);
    proof {
        let fresh = LexState { in_string: false, escape_next: false };
        assert(text@[c0 as int] == '{');
        assert(brace_scan(text@, c0 as int, 0, fresh) == brace_scan(text@, c0 + 1, 1, fresh));
        lemma_brace_scan_bounds(text@, c0 + 1, 1, fresh);
    }
    let total = text.len();
    if c0 > 0 && !contains_kind(&repairs, RepairKind::RemovedPreamble) {
        repairs.push(RepairKind::RemovedPreamble);
    }
    if end + 1 < total && !contains_kind(&repairs, RepairKind::RemovedPostamble) {
        repairs.push(RepairKind::RemovedPostamble);
    }
    assert(repairs@ == block_repairs(r0, c0 as int, end as int, total as int));
    let block = copy_range(text, c0, end + 1);
    (string_from_chars(&block), repairs)
}

/// Extracts the JSON block from a response.
fn extract_json_block(input: &str) -> (r: (String, Vec<RepairKind>))
    ensures
        extract_spec(input@) == (r.0@, r.1@),
{
    let mut repairs: Vec<RepairKind> = Vec::new();
    let text: Vec<char> = match remove_code_fences(input) {
        Some(f) => {
            repairs.push(RepairKind::RemovedCodeFence);
            if f.had_preamble {
                repairs.push(RepairKind::RemovedPreamble);
            }
            if f.had_postamble {
                repairs.push(RepairKind::RemovedPostamble);
            }
            proof {
                let pre = if f.had_preamble { seq![RepairKind::RemovedPreamble] } else { seq![] };
                let post = if f.had_postamble { seq![RepairKind::RemovedPostamble] } else { seq![] };
                assert(repairs@ =~= seq![RepairKind::RemovedCodeFence] + pre + post);
            }
            chars_of(f.content.as_str())
        },
        None => chars_of(input),
    };
    assert(fence_stage(input@) == (text@, repairs@));
    block_of_exec(&text, repairs)
}

// ---------------------------------------------------------------------------
// Value normalization, quotes and structure
// ---------------------------------------------------------------------------

/// Python booleans and their JSON spelling.
pub open spec fn python_booleans() -> Seq<(&'static str, &'static str)> {
    seq![("True", "true"), ("False", "false")]
}

/// Python `None` and its JSON spelling.
pub open spec fn python_none() -> Seq<(&'static str, &'static str)> {
    seq![("None", "null")]
}

/// Python literals replaced outside strings, with the repairs that records.
pub open spec fn normalize_spec(t: Seq<char>) -> (Seq<char>, Seq<RepairKind>) {
    let b = replaced_outside_strings(t, python_booleans());
    let (s1, r1) = if b != t { (b, seq![RepairKind::ReplacedPythonBooleans]) } else { (t, seq![]) };
    let n = replaced_outside_strings(s1, python_none());
    if n != s1 { (n, r1.push(RepairKind::ReplacedPythonNone)) } else { (s1, r1) }
}

proof fn lemma_literal_patterns_ascii()
    ensures
        ascii_patterns(python_booleans()),
        ascii_patterns(python_none()),
{
    reveal_strlit("True");
    reveal_strlit("False");
    reveal_strlit("None");
    let b = python_booleans();
    assert forall|k: int| 0 <= k < b.len() implies (#[trigger] b[k]).0@.len() > 0 && forall|j: int|
        0 <= j < b[k].0@.len() ==> (b[k].0@[j] as u32) < 0x80 by {
        if k == 0 {
            assert(b[k].0@ == "True"@);
        } else {
            assert(b[k].0@ == "False"@);
        }
    }
    let n = python_none();
    assert forall|k: int| 0 <= k < n.len() implies (#[trigger] n[k]).0@.len() > 0 && forall|j: int|
        0 <= j < n[k].0@.len() ==> (n[k].0@[j] as u32) < 0x80 by {
        assert(n[k].0@ == "None"@);
    }
}

fn string_eq(a: &String, b: &String) -> (r: bool)
    ensures
        r == (a@ == b@),
{
    a.eq(b)
}

/// Normalizes Python-style values (`True`, `False`, `None`) to JSON.
fn normalize_values(input: &str) -> (r: (String, Vec<RepairKind>))
    ensures
        (r.0@, r.1@) == normalize_spec(input@),
{
    proof {
        lemma_literal_patterns_ascii();
    }
    let bools: [(&str, &str); 2] = [("True", "true"), ("False", "false")];
    assert(bools@ =~= python_booleans());
    let none: [(&str, &str); 1] = [("None", "null")];
    assert(none@ =~= python_none());
    let mut repairs: Vec<RepairKind> = Vec::new();
    let mut result = to_owned_string(input);
    let bool_replaced = replace_outside_strings(result.as_str(), &bools);
    if !string_eq(&bool_replaced, &result) {
        repairs.push(RepairKind::ReplacedPythonBooleans);
        result = bool_replaced;
    }
    let none_replaced = replace_outside_strings(result.as_str(), &none);
    if !string_eq(&none_replaced, &result) {
        repairs.push(RepairKind::ReplacedPythonNone);
        result = none_replaced;
    }
    (result, repairs)
}

/// An object key without quotes, after `{` or `,`.
pub const UNQUOTED_KEY: &'static str = r"([{,]\s*)([a-zA-Z_][a-zA-Z0-9_]*)\s*:";
/// Replacement that quotes the key.
pub const QUOTED_KEY: &'static str = r#"$1"$2":"#;

/// The text with unquoted keys quoted; unchanged if the pattern does not compile.
pub open spec fn keys_quoted(t: Seq<char>) -> Seq<char> {
    match regex_replace_all_result(UNQUOTED_KEY@, t, QUOTED_KEY@) {
        Some(r) => r,
        None => t,
    }
}

/// Adds quotes around unquoted object keys.
fn quote_unquoted_keys(input: &str) -> (r: String)
    ensures
        r@ == keys_quoted(input@),
{
    match regex_replace_all(UNQUOTED_KEY, input, QUOTED_KEY) {
        Some(r) => r,
        None => to_owned_string(input),
    }
}

/// Single quotes and unquoted keys fixed, with the repairs that records.
pub open spec fn fix_quotes_spec(t: Seq<char>) -> (Seq<char>, Seq<RepairKind>) {
    let q = single_quotes_fixed(t);
    let (s1, r1) = if q != t { (q, seq![RepairKind::ReplacedSingleQuotes]) } else { (t, seq![]) };
    let k = keys_quoted(s1);
    if k != s1 { (k, r1.push(RepairKind::QuotedKeys)) } else { (s1, r1) }
}

/// Fixes quote issues: single quotes to double, unquoted keys.
fn fix_quotes(input: &str) -> (r: (String, Vec<RepairKind>))
    ensures
        (r.0@, r.1@) == fix_quotes_spec(input@),
{
    let mut repairs: Vec<RepairKind> = Vec::new();
    let mut result = to_owned_string(input);
    let single_fixed = fix_single_quotes(result.as_str());
    if !string_eq(&single_fixed, &result) {
        repairs.push(RepairKind::ReplacedSingleQuotes);
        result = single_fixed;
    }
    let keys_fixed = quote_unquoted_keys(result.as_str());
    if !string_eq(&keys_fixed, &result) {
        repairs.push(RepairKind::QuotedKeys);
        result = keys_fixed;
    }
    (result, repairs)
}

/// A comma before a closing bracket.
pub const TRAILING_COMMA: &'static str = r",(\s*[}\]])";
/// Replacement that drops the comma.
pub const TRAILING_COMMA_REPLACEMENT: &'static str = "$1";

/// The text without trailing commas; unchanged if the pattern does not compile.
pub open spec fn trailing_commas_removed(t: Seq<char>) -> Seq<char> {
    match regex_replace_all_result(TRAILING_COMMA@, t, TRAILING_COMMA_REPLACEMENT@) {
        Some(r) => r,
        None => t,
    }
}

/// Removes trailing commas before closing brackets.
fn remove_trailing_commas(input: &str) -> (r: String)
    ensures
        r@ == trailing_commas_removed(input@),
{
    match regex_replace_all(TRAILING_COMMA, input, TRAILING_COMMA_REPLACEMENT) {
        Some(r) => r,
        None => to_owned_string(input),
    }
}

/// Patterns of adjacent elements without a comma, with their fixed form.
pub open spec fn missing_comma_patterns() -> Seq<(&'static str, &'static str)> {
    seq![
        (r#""\s+""#, "\", \""),
        (r#""\s+\{"#, "\", {"),
        (r#"\}\s+""#, "}, \""),
        (r"\}\s+\{", "}, {"),
        (r"\]\s+\[", "], ["),
        (r#"(true|false|null|\d)\s+""#, "$1, \""),
    ]
}

/// The text after applying the rewrites from index `k` on, in order; a pattern
/// that does not compile is skipped.
pub open spec fn apply_rewrites(t: Seq<char>, pats: Seq<(&'static str, &'static str)>, k: int) -> Seq<char>
    decreases pats.len() - k,
{
    if k >= pats.len() || k < 0 {
        t
    } else {
        let next = match regex_replace_all_result(pats[k].0@, t, pats[k].1@) {
            Some(r) => r,
            None => t,
        };
        apply_rewrites(next, pats, k + 1)
    }
}

/// Tries to add missing commas between array/object elements.
fn add_missing_commas(input: &str) -> (r: String)
    ensures
        r@ == apply_rewrites(input@, missing_comma_patterns(), 0),
{
    let patterns: [(&str, &str); 6] = [
        (r#""\s+""#, "\", \""),
        (r#""\s+\{"#, "\", {"),
        (r#"\}\s+""#, "}, \""),
        (r"\}\s+\{", "}, {"),
        (r"\]\s+\[", "], ["),
        (r#"(true|false|null|\d)\s+""#, "$1, \""),
    ];
    assert(patterns@ =~= missing_comma_patterns());
    let mut result = to_owned_string(input);
    let mut k: usize = 0;
    while k < 6
        invariant
            k <= 6,
            patterns@ == missing_comma_patterns(),
            apply_rewrites(input@, missing_comma_patterns(), 0) == apply_rewrites(result@, missing_comma_patterns(), k as int),
        decreases 6 - k,
    {
        let (pattern, replacement) = patterns[k];
        match regex_replace_all(pattern, result.as_str(), replacement) {
            Some(r) => {
                result = r;
            },
            None => {},
        }
        k += 1;
    }
    result
}

/// Control characters escaped, trailing commas removed and missing commas
/// added, with the repairs that records.
pub open spec fn fix_structure_spec(t: Seq<char>) -> (Seq<char>, Seq<RepairKind>) {
    let e = control_chars_escaped(t);
    let (s1, r1) = if e != t { (e, seq![RepairKind::EscapedControlChars]) } else { (t, seq![]) };
    let n = trailing_commas_removed(s1);
    let (s2, r2) = if n != s1 { (n, r1.push(RepairKind::RemovedTrailingCommas)) } else { (s1, r1) };
    let c = apply_rewrites(s2, missing_comma_patterns(), 0);
    if c != s2 { (c, r2.push(RepairKind::AddedMissingCommas)) } else { (s2, r2) }
}

/// Fixes structural issues like trailing commas and unescaped control chars.
fn fix_structure(input: &str) -> (r: (String, Vec<RepairKind>))
    ensures
        (r.0@, r.1@) == fix_structure_spec(input@),
{
    let mut repairs: Vec<RepairKind> = Vec::new();
    let mut result = to_owned_string(input);
    let escaped = escape_control_chars(result.as_str());
    if !string_eq(&escaped, &result) {
        repairs.push(RepairKind::EscapedControlChars);
        result = escaped;
    }
    let no_trailing = remove_trailing_commas(result.as_str());
    if !string_eq(&no_trailing, &result) {
        repairs.push(RepairKind::RemovedTrailingCommas);
        result = no_trailing;
    }
    let with_commas = add_missing_commas(result.as_str());
    if !string_eq(&with_commas, &result) {
        repairs.push(RepairKind::AddedMissingCommas);
        result = with_commas;
    }
    (result, repairs)
}

// ---------------------------------------------------------------------------
// The repair pipeline
// ---------------------------------------------------------------------------

/// Errors that can occur during JSON repair.
#[derive(Debug, Clone)]
pub enum RepairError {
    /// No JSON object found in the response
    NoJsonFound,
    /// JSON was truncated mid-value and cannot be recovered
    Truncated { context: String },
    /// All repair attempts failed
    Unrecoverable { original_error: String, attempts: Vec<String> },
}

/// The result of a successful JSON repair operation.
#[derive(Debug, Clone)]
pub struct RepairResult {
    /// The repaired JSON string
    pub json: String,
    /// List of repairs that were applied
    pub repairs_applied: Vec<RepairKind>,
    /// Whether any repairs were needed
    pub was_repaired: bool,
}

/// Mathematical view of what a repair attempt yields.
pub enum RepairOutcome {
    /// Parsing JSON text, the repairs applied, and whether any were needed.
    Repaired(Seq<char>, Seq<RepairKind>, bool),
    /// No JSON object in the response.
    NoJson,
    /// Truncated JSON, with the tail shown as context.
    Truncated(Seq<char>),
    /// The parser's last error and the phases that were tried.
    Unrecoverable(Seq<char>, Seq<Seq<char>>),
}

/// View of a repair result.
pub open spec fn outcome_of(r: Result<RepairResult, RepairError>) -> RepairOutcome {
    match r {
        Ok(ok) => RepairOutcome::Repaired(ok.json@, ok.repairs_applied@, ok.was_repaired),
        Err(RepairError::NoJsonFound) => RepairOutcome::NoJson,
        Err(RepairError::Truncated { context }) => RepairOutcome::Truncated(context@),
        Err(RepairError::Unrecoverable { original_error, attempts }) => RepairOutcome::Unrecoverable(
            original_error@,
            string_views(attempts@),
        ),
    }
}

/// The phases after value normalization: quote fixes, structure fixes and
/// closers, each returning as soon as the text parses.
pub open spec fn repair_late(normalized: Seq<char>, repairs: Seq<RepairKind>, attempts: Seq<Seq<char>>) -> RepairOutcome {
    let (quoted, qr) = fix_quotes_spec(normalized);
    let r2 = repairs + qr;
    if json_valid(quoted) {
        RepairOutcome::Repaired(quoted, r2, true)
    } else {
        let a2 = if qr.len() > 0 { attempts.push("quote fixes"@) } else { attempts };
        let (structured, sr) = fix_structure_spec(quoted);
        let r3 = r2 + sr;
        if json_valid(structured) {
            RepairOutcome::Repaired(structured, r3, true)
        } else {
            let a3 = if sr.len() > 0 { a2.push("structure fixes"@) } else { a2 };
            let (completed, closed) = closers_added(structured);
            let r4 = if closed { r3.push(RepairKind::AddedMissingClosers) } else { r3 };
            if json_valid(completed) {
                RepairOutcome::Repaired(completed, r4, true)
            } else {
                let a4 = if closed { a3.push("adding closers"@) } else { a3 };
                if looks_truncated_spec(structured) {
                    RepairOutcome::Truncated(truncation_context_spec(structured))
                } else {
                    let original_error = match json_parse_error(completed) {
                        Some(e) => e,
                        None => "unknown error"@,
                    };
                    RepairOutcome::Unrecoverable(original_error, a4)
                }
            }
        }
    }
}

/// What repairing a response yields: the trimmed response when it parses;
/// otherwise, in turn, the extracted block, the block with Python values
/// normalized, with quotes fixed, with structure fixed and with closers added,
/// the first that parses; otherwise a truncation or an unrecoverable error.
pub open spec fn repair_spec(response: Seq<char>) -> RepairOutcome {
    let trimmed = trim(response);
    if trimmed.len() == 0 {
        RepairOutcome::NoJson
    } else if json_valid(trimmed) {
        RepairOutcome::Repaired(trimmed, seq![], false)
    } else {
        let (extracted, r0) = extract_spec(trimmed);
        if extracted.len() == 0 || !has_char(extracted, '{') {
            RepairOutcome::NoJson
        } else if json_valid(extracted) {
            RepairOutcome::Repaired(extracted, r0, r0.len() > 0)
        } else {
            let a0 = seq!["extraction"@];
            let (normalized, nr) = normalize_spec(extracted);
            let r1 = r0 + nr;
            if json_valid(normalized) {
                RepairOutcome::Repaired(normalized, r1, true)
            } else {
                let a1 = if nr.len() > 0 { a0.push("value normalization"@) } else { a0 };
                repair_late(normalized, r1, a1)
            }
        }
    }
}

fn has_brace(s: &str) -> (b: bool)
    ensures
        b == has_char(s@, '{'),
{
    let v = chars_of(s);
    let brace: [char; 1] = ['{'];
    let r = find_from(&v, &brace, 0);
    proof {
        if has_char(v@, '{') {
            let i = choose|i: int| 0 <= i < v@.len() && v@[i] == '{';
            assert(v@.subrange(i, i + 1) =~= brace@);
            assert(occurs_at(v@, brace@, i));
        }
        if r is Some {
            let c = r->0;
            assert(v@.subrange(c as int, c + 1)[0] == v@[c as int]);
        }
    }
    r.is_some()
}

fn append_kinds(v: &mut Vec<RepairKind>, w: Vec<RepairKind>)
    ensures
        final(v)@ == old(v)@ + w@,
{
    let mut w = w;
    v.append(&mut w);
}

fn repair_late_exec(normalized: String, repairs: Vec<RepairKind>, attempts: Vec<String>) -> (r: Result<RepairResult, RepairError>)
    ensures
        repair_late(normalized@, repairs@, string_views(attempts@)) == outcome_of(r),
{
    let mut repairs = repairs;
    let mut attempts = attempts;
    let ghost a1 = attempts@;
    let (quoted, quote_repairs) = fix_quotes(normalized.as_str());
    let q_nonempty = quote_repairs.len() > 0;
    append_kinds(&mut repairs, quote_repairs);
    if json_check(quoted.as_str()).is_none() {
        return Ok(RepairResult { json: quoted, repairs_applied: repairs, was_repaired: true });
    }
    if q_nonempty {
        attempts.push(to_owned_string("quote fixes"));
        proof { assert(string_views(attempts@) =~= string_views(a1).push("quote fixes"@)); }
    }
    let ghost a2 = attempts@;
    let (structured, struct_repairs) = fix_structure(quoted.as_str());
    let s_nonempty = struct_repairs.len() > 0;
    append_kinds(&mut repairs, struct_repairs);
    if json_check(structured.as_str()).is_none() {
        return Ok(RepairResult { json: structured, repairs_applied: repairs, was_repaired: true });
    }
    if s_nonempty {
        attempts.push(to_owned_string("structure fixes"));
        proof { assert(string_views(attempts@) =~= string_views(a2).push("structure fixes"@)); }
    }
    let ghost a3 = attempts@;
    let (completed, closer_repairs) = add_missing_closers(structured.as_str());
    let c_nonempty = closer_repairs.len() > 0;
    let ghost r3 = repairs@;
    append_kinds(&mut repairs, closer_repairs);
    proof {
        if closers_added(structured@).1 {
            assert(repairs@ =~= r3.push(RepairKind::AddedMissingClosers));
        } else {
            assert(repairs@ =~= r3);
        }
    }
    let completed_error = json_check(completed.as_str());
    if completed_error.is_none() {
        return Ok(RepairResult { json: completed, repairs_applied: repairs, was_repaired: true });
    }
    if c_nonempty {
        attempts.push(to_owned_string("adding closers"));
        proof { assert(string_views(attempts@) =~= string_views(a3).push("adding closers"@)); }
    }
    if looks_truncated(structured.as_str()) {
        return Err(RepairError::Truncated { context: truncation_context(structured.as_str()) });
    }
    let original_error = match completed_error {
        Some(e) => e,
        None => to_owned_string("unknown error"),
    };
    Err(RepairError::Unrecoverable { original_error, attempts })
}

/// Attempts to repair malformed JSON from a model response.
///
/// Applies repairs in order of safety, validating after each phase, and
/// returns as soon as the text parses.
#[verifier::rlimit(40)]
pub fn repair_json(response: &str) -> (r: Result<RepairResult, RepairError>)
    ensures
        repair_spec(response@) == outcome_of(r),
{
    let t = chars_of(response);
    let (a, b) = trim_bounds(&t);
    let tv = copy_range(&t, a, b);
    let trimmed = string_from_chars(&tv);
    if tv.len() == 0 {
        return Err(RepairError::NoJsonFound);
    }
    if json_check(trimmed.as_str()).is_none() {
        return Ok(RepairResult { json: trimmed, repairs_applied: Vec::new(), was_repaired: false });
    }
    let (extracted, repairs) = extract_json_block(trimmed.as_str());
    if extracted.as_str().is_empty() || !has_brace(extracted.as_str()) {
        return Err(RepairError::NoJsonFound);
    }
    if json_check(extracted.as_str()).is_none() {
        let was_repaired = repairs.len() > 0;
        return Ok(RepairResult { json: extracted, repairs_applied: repairs, was_repaired });
    }
    let mut repairs = repairs;
    let mut attempts: Vec<String> = Vec::new();
    attempts.push(to_owned_string("extraction"));
    proof { assert(string_views(attempts@) =~= seq!["extraction"@]); }
    let ghost a0 = attempts@;
    let (normalized, norm_repairs) = normalize_values(extracted.as_str());
    let n_nonempty = norm_repairs.len() > 0;
    append_kinds(&mut repairs, norm_repairs);
    if json_check(normalized.as_str()).is_none() {
        return Ok(RepairResult { json: normalized, repairs_applied: repairs, was_repaired: true });
    }
    if n_nonempty {
        attempts.push(to_owned_string("value normalization"));
        proof { assert(string_views(attempts@) =~= string_views(a0).push("value normalization"@)); }
    }
    repair_late_exec(normalized, repairs, attempts)
}

impl RepairKind {
    /// Human-readable description of the repair.
    pub fn description(&self) -> (s: &'static str)
        ensures
            s@ == self.description_spec(),
    {
        match self {
            RepairKind::RemovedCodeFence => "removed code fence",
            RepairKind::RemovedPreamble => "removed preamble",
            RepairKind::RemovedPostamble => "removed postamble",
            RepairKind::ReplacedSingleQuotes => "replaced single quotes",
            RepairKind::QuotedKeys => "quoted unquoted keys",
            RepairKind::ReplacedPythonBooleans => "replaced Python booleans",
            RepairKind::ReplacedPythonNone => "replaced Python None",
            RepairKind::RemovedTrailingCommas => "removed trailing commas",
            RepairKind::AddedMissingCommas => "added missing commas",
            RepairKind::EscapedControlChars => "escaped control chars",
            RepairKind::AddedMissingClosers => "added missing closers",
        }
    }
}

impl RepairError {
    /// The error's message, as its `Display` writes it.
    pub fn message(&self) -> (s: String)
        ensures
            s@ == match self {
                RepairError::NoJsonFound => "no JSON object found in response"@,
                RepairError::Truncated { context } => "JSON appears truncated: "@ + context@,
                RepairError::Unrecoverable { original_error, attempts } => "failed to repair JSON: "@
                    + original_error@ + "; tried: "@ + join(string_views(attempts@), ", "@),
            },
    {
        match self {
            RepairError::NoJsonFound => to_owned_string("no JSON object found in response"),
            RepairError::Truncated { context } => {
                let mut s = to_owned_string("JSON appears truncated: ");
                push_str(&mut s, context.as_str());
                s
            },
            RepairError::Unrecoverable { original_error, attempts } => {
                let mut s = to_owned_string("failed to repair JSON: ");
                push_str(&mut s, original_error.as_str());
                push_str(&mut s, "; tried: ");
                let joined = join_strings(attempts.as_slice(), ", ");
                push_str(&mut s, joined.as_str());
                s
            },
        }
    }
}


impl RepairKind {
    /// The description of each kind of repair.
    pub open spec fn description_spec(self) -> Seq<char> {
        match self {
            RepairKind::RemovedCodeFence => "removed code fence"@,
            RepairKind::RemovedPreamble => "removed preamble"@,
            RepairKind::RemovedPostamble => "removed postamble"@,
            RepairKind::ReplacedSingleQuotes => "replaced single quotes"@,
            RepairKind::QuotedKeys => "quoted unquoted keys"@,
            RepairKind::ReplacedPythonBooleans => "replaced Python booleans"@,
            RepairKind::ReplacedPythonNone => "replaced Python None"@,
            RepairKind::RemovedTrailingCommas => "removed trailing commas"@,
            RepairKind::AddedMissingCommas => "added missing commas"@,
            RepairKind::EscapedControlChars => "escaped control chars"@,
            RepairKind::AddedMissingClosers => "added missing closers"@,
        }
    }
}

proof fn lemma_late_outcome(normalized: Seq<char>, repairs: Seq<RepairKind>, attempts: Seq<Seq<char>>)
    ensures
        repair_late(normalized, repairs, attempts) matches RepairOutcome::Repaired(json, _, was)
            ==> json_valid(json) && was,
{
    let (quoted, qr) = fix_quotes_spec(normalized);
    let (structured, sr) = fix_structure_spec(quoted);
    let (completed, closed) = closers_added(structured);
}

/// Whatever a repair hands back parses as JSON.
pub proof fn lemma_repair_yields_valid_json(response: Seq<char>)
    ensures
        repair_spec(response) matches RepairOutcome::Repaired(json, _, _) ==> json_valid(json),
{
    let trimmed = trim(response);
    if trimmed.len() > 0 && !json_valid(trimmed) {
        let (extracted, r0) = extract_spec(trimmed);
        let (normalized, nr) = normalize_spec(extracted);
        let a1 = if nr.len() > 0 { seq!["extraction"@].push("value normalization"@) } else { seq!["extraction"@] };
        lemma_late_outcome(normalized, r0 + nr, a1);
    }
}

/// A response that is valid JSON apart from surrounding white space comes
/// back trimmed, with no repairs.
pub proof fn lemma_valid_json_unchanged(response: Seq<char>)
    requires
        trim(response).len() > 0,
        json_valid(trim(response)),
    ensures
        repair_spec(response) == RepairOutcome::Repaired(trim(response), seq![], false),
{
}

/// A repair that reports it needed none applied none.
pub proof fn lemma_unrepaired_means_no_repairs(response: Seq<char>)
    ensures
        repair_spec(response) matches RepairOutcome::Repaired(_, reps, false) ==> reps.len() == 0,
{
    let trimmed = trim(response);
    if trimmed.len() > 0 && !json_valid(trimmed) {
        let (extracted, r0) = extract_spec(trimmed);
        let (normalized, nr) = normalize_spec(extracted);
        let a1 = if nr.len() > 0 { seq!["extraction"@].push("value normalization"@) } else { seq!["extraction"@] };
        lemma_late_outcome(normalized, r0 + nr, a1);
    }
}

/// Every rewrite of the missing-comma stage puts `, ` between the two
/// elements its pattern finds side by side: a string and the next string or
/// object, an object and the next string or object, an array and the next
/// array, a literal and the next string.
pub proof fn lemma_missing_comma_rewrites_add_commas()
    ensures
        forall|k: int| 0 <= k < missing_comma_patterns().len()
            ==> crate::text::contains((#[trigger] missing_comma_patterns()[k]).1@, ", "@),
{
    reveal_strlit(", ");
    reveal_strlit("\", \"");
    reveal_strlit("\", {");
    reveal_strlit("}, \"");
    reveal_strlit("}, {");
    reveal_strlit("], [");
    reveal_strlit("$1, \"");
    let ps = missing_comma_patterns();
    assert(ps[0].1@ == "\", \""@);
    assert(ps[1].1@ == "\", {"@);
    assert(ps[0].1@.subrange(1, 3) =~= ", "@);
    assert(ps[1].1@.subrange(1, 3) =~= ", "@);
    assert(occurs_at(ps[0].1@, ", "@, 1));
    assert(occurs_at(ps[1].1@, ", "@, 1));
    assert(ps[2].1@.subrange(1, 3) =~= ", "@);
    assert(ps[3].1@.subrange(1, 3) =~= ", "@);
    assert(ps[4].1@.subrange(1, 3) =~= ", "@);
    assert(ps[5].1@.subrange(2, 4) =~= ", "@);
    assert(occurs_at(ps[2].1@, ", "@, 1));
    assert(occurs_at(ps[3].1@, ", "@, 1));
    assert(occurs_at(ps[4].1@, ", "@, 1));
    assert(occurs_at(ps[5].1@, ", "@, 2));
    assert forall|k: int| 0 <= k < ps.len() implies crate::text::contains((#[trigger] ps[k]).1@, ", "@) by {
        if k == 5 {
            assert(occurs_at(ps[k].1@, ", "@, 2));
        } else {
            assert(occurs_at(ps[k].1@, ", "@, 1));
        }
    }
}

} // verus!
