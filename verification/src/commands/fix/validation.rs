//! Checks on a model's replacement code before a diff is made from it.

use vstd::prelude::*;
use crate::text::{
    byte_len, byte_length, str_byte_len, chars_of, contains, contains_str, eq_str, join, lines, push_char, push_str,
    split_lines, starts_with, starts_with_str, string_from_chars, trim, trim_bounds, trim_start, views,
    join_char_vecs, copy_range, is_blank, all_ws, lemma_blank_iff_trim_empty,
};

verus! {

/// Maximum allowed expansion of a replacement over the original, as a factor.
pub const MAX_EXPANSION_RATIO: u64 = 10;

/// Largest replacement accepted for an empty original, in bytes.
pub const MAX_REPLACEMENT_FOR_EMPTY: u64 = 500;

/// Validation errors for model output.
#[derive(Debug)]
pub enum ValidationError {
    /// The replacement is more than ten times longer than the original
    /// (byte lengths; an empty original allows up to 500 bytes).
    LengthExceeded { replacement_len: usize, original_len: usize },
    /// Delimiters do not balance.
    UnbalancedDelimiters { details: String },
}

/// Warning for potential issues that don't block the fix.
#[derive(Debug, Clone)]
pub struct ValidationWarning {
    /// What looks wrong
    pub message: String,
}

/// Result of validating model output.
#[derive(Debug)]
pub struct ValidationResult {
    /// Warnings that don't block the fix
    pub warnings: Vec<ValidationWarning>,
}

/// The messages of warnings.
pub open spec fn warning_views(v: Seq<ValidationWarning>) -> Seq<Seq<char>> {
    v.map_values(|w: ValidationWarning| w.message@)
}

impl ValidationResult {
    /// A result without warnings.
    pub fn new() -> (r: Self)
        ensures
            warning_views(r.warnings@) == Seq::<Seq<char>>::empty(),
    {
        ValidationResult { warnings: Vec::new() }
    }

    /// Adds a warning.
    pub fn add_warning(&mut self, message: String)
        ensures
            warning_views(final(self).warnings@) == warning_views(old(self).warnings@).push(message@),
    {
        let ghost before = self.warnings@;
        self.warnings.push(ValidationWarning { message });
        assert(warning_views(self.warnings@) =~= warning_views(before).push(message@));
    }
}

// ---------------------------------------------------------------------------
// Delimiter balance
// ---------------------------------------------------------------------------

/// State of the delimiter scan: open delimiters, whether inside a string
/// literal, its quote, and the previous character.
pub struct DelimState {
    pub stack: Seq<char>,
    pub in_string: bool,
    pub quote: char,
    pub prev: char,
}

/// One step of the string-literal tracking: a quote not after a backslash
/// opens a literal, or closes one opened with the same quote.
pub open spec fn string_step(in_string: bool, quote: char, prev: char, c: char) -> (bool, char) {
    if (c == '"' || c == '\'') && prev != '\\' {
        if in_string && c == quote {
            (false, quote)
        } else if !in_string {
            (true, c)
        } else {
            (in_string, quote)
        }
    } else {
        (in_string, quote)
    }
}

/// The opener that a closer needs.
pub open spec fn opener_of(c: char) -> char {
    if c == ')' { '(' } else if c == ']' { '[' } else { '{' }
}

/// Scans code from position `i`; `Some` is the first problem found.
pub open spec fn delim_scan(t: Seq<char>, i: int, stack: Seq<char>, in_string: bool, quote: char, prev: char) -> Option<Seq<char>>
    decreases t.len() - i,
{
    if i >= t.len() || i < 0 {
        if stack.len() > 0 { Some("unclosed delimiters: "@ + stack) } else { None }
    } else {
        let c = t[i];
        let (s2, q2) = string_step(in_string, quote, prev, c);
        if !s2 && (c == '(' || c == '[' || c == '{') {
            delim_scan(t, i + 1, stack.push(c), s2, q2, c)
        } else if !s2 && (c == ')' || c == ']' || c == '}') {
            if stack.len() > 0 && stack.last() == opener_of(c) {
                delim_scan(t, i + 1, stack.drop_last(), s2, q2, c)
            } else {
                Some("unexpected '"@ + seq![c] + "'"@)
            }
        } else {
            delim_scan(t, i + 1, stack, s2, q2, c)
        }
    }
}

/// Whether delimiters outside string literals balance: `None`, or what is
/// wrong.
pub open spec fn delimiter_problem(code: Seq<char>) -> Option<Seq<char>> {
    delim_scan(code, 0, seq![], false, '"', ' ')
}

/// Check for balanced delimiters in code: `None` if balanced, else what is
/// wrong.
pub fn check_delimiter_balance(code: &str) -> (r: Option<String>)
    ensures
        match delimiter_problem(code@) {
            Some(d) => r matches Some(s) && s@ == d,
            None => r is None,
        },
{
    let t = chars_of(code);
    let mut stack: Vec<char> = Vec::new();
    let mut in_string = false;
    let mut quote = '"';
    let mut prev = ' ';
    let mut i: usize = 0;
    while i < t.len()
        invariant
            t@ == code@,
            i <= t@.len(),
            delimiter_problem(code@) == delim_scan(t@, i as int, stack@, in_string, quote, prev),
        decreases t@.len() - i,
    {
        let c = t[i];
        if (c == '"' || c == '\'') && prev != '\\' {
            if in_string && c == quote {
                in_string = false;
            } else if !in_string {
                in_string = true;
                quote = c;
            }
        }
        if !in_string {
            if c == '(' || c == '[' || c == '{' {
                stack.push(c);
            } else if c == ')' || c == ']' || c == '}' {
                let want = if c == ')' { '(' } else if c == ']' { '[' } else { '{' };
                if stack.len() > 0 && stack[stack.len() - 1] == want {
                    stack.pop();
                } else {
                    let mut m = "unexpected '".to_string();
                    push_char(&mut m, c);
                    push_str(&mut m, "'");
                    assert(m@ =~= "unexpected '"@ + seq![c] + "'"@);
                    return Some(m);
                }
            }
        }
        prev = c;
        i += 1;
    }
    if stack.len() > 0 {
        let mut m = "unclosed delimiters: ".to_string();
        let s = string_from_chars(&stack);
        push_str(&mut m, s.as_str());
        return Some(m);
    }
    None
}

// ---------------------------------------------------------------------------
// Common mistakes in model output
// ---------------------------------------------------------------------------

/// Phrases that suggest a replacement holds explanation text.
pub open spec fn explanation_markers() -> Seq<Seq<char>> {
    seq![
        "Here's the fixed"@, "Here is the fixed"@, "I've fixed"@, "I have fixed"@, "The fix is"@, "// Fixed:"@,
        "// Fix:"@, "/* Fixed"@,
    ]
}

/// The first marker the code contains, if any.
pub open spec fn first_marker(code: Seq<char>, k: int) -> Option<Seq<char>>
    decreases 8 - k,
{
    if k < 0 || k >= 8 {
        None
    } else if contains(code, explanation_markers()[k]) {
        Some(explanation_markers()[k])
    } else {
        first_marker(code, k + 1)
    }
}

/// The warnings about common mistakes: code fences, then explanation text.
pub open spec fn mistake_warnings(code: Seq<char>) -> Seq<Seq<char>> {
    let fences = if starts_with(code, "```"@) || contains(code, "\n```"@) {
        seq!["output contains markdown code fences"@]
    } else {
        seq![]
    };
    match first_marker(code, 0) {
        Some(m) => fences.push("output may contain explanation text: '"@ + m + "'"@),
        None => fences,
    }
}

fn marker_at(k: usize) -> (m: &'static str)
    requires
        k < 8,
    ensures
        m@ == explanation_markers()[k as int],
{
    match k {
        0 => "Here's the fixed",
        1 => "Here is the fixed",
        2 => "I've fixed",
        3 => "I have fixed",
        4 => "The fix is",
        5 => "// Fixed:",
        6 => "// Fix:",
        _ => "/* Fixed",
    }
}

/// Adds warnings for common mistakes in model output.
pub fn check_common_mistakes(code: &str, result: &mut ValidationResult)
    ensures
        warning_views(final(result).warnings@) == warning_views(old(result).warnings@) + mistake_warnings(code@),
{
    let t = chars_of(code);
    let ghost start = warning_views(result.warnings@);
    if starts_with_str(&t, "```") || contains_str(&t, "\n```") {
        result.add_warning("output contains markdown code fences".to_string());
    }
    let ghost mid = warning_views(result.warnings@);
    let ghost fences = if starts_with(code@, "```"@) || contains(code@, "\n```"@) {
        seq!["output contains markdown code fences"@]
    } else {
        seq![]
    };
    assert(mid =~= start + fences);
    let mut k: usize = 0;
    while k < 8
        invariant
            t@ == code@,
            k <= 8,
            warning_views(result.warnings@) == mid,
            mid == start + fences,
            start == warning_views(old(result).warnings@),
            fences == (if starts_with(code@, "```"@) || contains(code@, "\n```"@) {
                seq!["output contains markdown code fences"@]
            } else {
                seq![]
            }),
            first_marker(code@, 0) == first_marker(code@, k as int),
        decreases 8 - k,
    {
        let m = marker_at(k);
        if contains_str(&t, m) {
            let mut w = "output may contain explanation text: '".to_string();
            push_str(&mut w, m);
            push_str(&mut w, "'");
            result.add_warning(w);
            proof {
                reveal_with_fuel(first_marker, 2);
                assert(first_marker(code@, k as int) == Some(explanation_markers()[k as int]));
                assert(warning_views(result.warnings@) =~= start + mistake_warnings(code@));
            }
            return;
        }
        k += 1;
    }
    assert(warning_views(result.warnings@) =~= start + mistake_warnings(code@));
}

// ---------------------------------------------------------------------------
// Validation
// ---------------------------------------------------------------------------

/// Whether the replacement is too long for the original: more than ten
/// times its byte length, or over 500 bytes for an empty original.
pub open spec fn too_long(original_len: nat, replacement_len: nat) -> bool {
    if original_len > 0 {
        replacement_len > MAX_EXPANSION_RATIO * original_len
    } else {
        replacement_len > MAX_REPLACEMENT_FOR_EMPTY
    }
}

/// The warnings that validation gives a replacement.
pub open spec fn validation_warnings(replacement: Seq<char>) -> Seq<Seq<char>> {
    let delim = match delimiter_problem(replacement) {
        Some(d) => seq!["possible unbalanced delimiters: "@ + d],
        None => seq![],
    };
    delim + mistake_warnings(replacement)
}

/// Validate model output before a diff is made of it: too long a
/// replacement is refused; unbalanced delimiters and signs of markdown or
/// explanation text give warnings.
pub fn validate_replacement(original: &str, replacement: &str) -> (r: Result<ValidationResult, ValidationError>)
    ensures
        too_long(byte_len(original@), byte_len(replacement@)) <==> r is Err,
        r matches Err(e) ==> e == (ValidationError::LengthExceeded {
            replacement_len: byte_len(replacement@) as usize,
            original_len: byte_len(original@) as usize,
        }),
        r matches Ok(v) ==> warning_views(v.warnings@) == validation_warnings(replacement@),
{
    let ov = chars_of(original);
    let rv = chars_of(replacement);
    let original_bytes = byte_length(&ov);
    let replacement_bytes = byte_length(&rv);
    let ol = ov.len();
    assert(original_bytes <= 4 * ol);
    let exceeded = if original_bytes > 0 {
        replacement_bytes > 10 * original_bytes
    } else {
        replacement_bytes > 500
    };
    if exceeded {
        return Err(ValidationError::LengthExceeded {
            replacement_len: str_byte_len(replacement),
            original_len: str_byte_len(original),
        });
    }
    let mut result = ValidationResult::new();
    if let Some(details) = check_delimiter_balance(replacement) {
        let mut w = "possible unbalanced delimiters: ".to_string();
        push_str(&mut w, details.as_str());
        result.add_warning(w);
    }
    check_common_mistakes(replacement, &mut result);
    proof {
        assert(warning_views(result.warnings@) =~= validation_warnings(replacement@));
    }
    Ok(result)
}


// ---------------------------------------------------------------------------
// Sanitising a replacement
// ---------------------------------------------------------------------------

/// Lines with blank lines at the front removed.
pub open spec fn drop_blank_front(ls: Seq<Seq<char>>) -> Seq<Seq<char>>
    decreases ls.len(),
{
    if ls.len() > 0 && is_blank(ls[0]) { drop_blank_front(ls.drop_first()) } else { ls }
}

/// Lines with blank lines at the end removed.
pub open spec fn drop_blank_back(ls: Seq<Seq<char>>) -> Seq<Seq<char>>
    decreases ls.len(),
{
    if ls.len() > 0 && is_blank(ls.last()) { drop_blank_back(ls.drop_last()) } else { ls }
}

/// Lines with blank lines removed at both ends.
pub open spec fn strip_blank(ls: Seq<Seq<char>>) -> Seq<Seq<char>> {
    drop_blank_back(drop_blank_front(ls))
}

/// What sanitising makes of model output: blank lines at both ends
/// dropped, then an opening fence line (one starting with three backticks
/// after indentation) and a closing fence line (three backticks alone),
/// then blank lines again; the lines joined with line feeds. Indentation
/// inside is kept.
pub open spec fn sanitized(raw: Seq<char>) -> Seq<char> {
    let a = strip_blank(lines(raw));
    let b = if a.len() > 0 && starts_with(trim_start(a[0]), "```"@) { a.drop_first() } else { a };
    let c = if b.len() > 0 && trim(b.last()) == "```"@ { b.drop_last() } else { b };
    join(strip_blank(c), "\n"@)
}

proof fn lemma_drop_blank_front_at(ls: Seq<Seq<char>>, k: int)
    requires
        0 <= k <= ls.len(),
        forall|j: int| 0 <= j < k ==> is_blank(#[trigger] ls[j]),
        k == ls.len() || !is_blank(ls[k]),
    ensures
        drop_blank_front(ls) == ls.skip(k),
    decreases k,
{
    if k == 0 {
        assert(ls.skip(0) =~= ls);
    } else {
        let t = ls.drop_first();
        assert forall|j: int| 0 <= j < k - 1 implies is_blank(#[trigger] t[j]) by {
            assert(t[j] == ls[j + 1]);
        }
        if k < ls.len() {
            assert(t[k - 1] == ls[k]);
        }
        lemma_drop_blank_front_at(t, k - 1);
        assert(t.skip(k - 1) =~= ls.skip(k));
    }
}

proof fn lemma_drop_blank_back_at(ls: Seq<Seq<char>>, k: int)
    requires
        0 <= k <= ls.len(),
        forall|j: int| k <= j < ls.len() ==> is_blank(#[trigger] ls[j]),
        k == 0 || !is_blank(ls[k - 1]),
    ensures
        drop_blank_back(ls) == ls.take(k),
    decreases ls.len() - k,
{
    if k == ls.len() {
        assert(ls.take(k) =~= ls);
    } else {
        let t = ls.drop_last();
        assert forall|j: int| k <= j < t.len() implies is_blank(#[trigger] t[j]) by {
            assert(t[j] == ls[j]);
        }
        if k > 0 {
            assert(t[k - 1] == ls[k - 1]);
        }
        lemma_drop_blank_back_at(t, k);
        assert(t.take(k) =~= ls.take(k));
    }
}

fn strip_blank_lines(ls: Vec<Vec<char>>) -> (r: Vec<Vec<char>>)
    ensures
        views(r@) == strip_blank(views(ls@)),
{
    let n = ls.len();
    let mut lo: usize = 0;
    while lo < n && all_ws(&ls[lo])
        invariant
            n == ls@.len(),
            lo <= n,
            forall|j: int| 0 <= j < lo ==> is_blank(#[trigger] views(ls@)[j]),
        decreases n - lo,
    {
        lo += 1;
    }
    proof {
        lemma_drop_blank_front_at(views(ls@), lo as int);
    }
    let mut hi: usize = n;
    while hi > lo && all_ws(&ls[hi - 1])
        invariant
            n == ls@.len(),
            lo <= hi <= n,
            forall|j: int| hi <= j < n ==> is_blank(#[trigger] views(ls@)[j]),
        decreases hi,
    {
        hi -= 1;
    }
    let ghost f = views(ls@).skip(lo as int);
    proof {
        assert forall|j: int| hi - lo <= j < f.len() implies is_blank(#[trigger] f[j]) by {
            assert(f[j] == views(ls@)[j + lo]);
        }
        if hi > lo {
            assert(f[hi - lo - 1] == views(ls@)[hi - 1]);
        }
        lemma_drop_blank_back_at(f, hi - lo);
    }
    let mut r: Vec<Vec<char>> = Vec::new();
    let mut i = lo;
    while i < hi
        invariant
            n == ls@.len(),
            lo <= i <= hi <= n,
            views(r@) == views(ls@).subrange(lo as int, i as int),
        decreases hi - i,
    {
        let ghost before = r@;
        let line = copy_range(&ls[i], 0, ls[i].len());
        assert(line@ =~= ls@[i as int]@);
        r.push(line);
        assert(views(r@) =~= views(before).push(views(ls@)[i as int]));
        assert(views(r@) =~= views(ls@).subrange(lo as int, i + 1));
        i += 1;
    }
    assert(f.take(hi - lo) =~= views(ls@).subrange(lo as int, hi as int));
    r
}

/// Strip common formatting of model output: blank lines and markdown code
/// fences at the ends. Leading white space (indentation) on code lines is
/// kept.
pub fn sanitize_replacement(raw: &str) -> (r: String)
    ensures
        r@ == sanitized(raw@),
{
    let t = chars_of(raw);
    let all = split_lines(&t);
    let mut a = strip_blank_lines(all);
    let ghost av = views(a@);
    if a.len() > 0 {
        let (s0, _e0) = trim_bounds(&a[0]);
        let ts = copy_range(&a[0], s0, a[0].len());
        assert(ts@ =~= trim_start(av[0]));
        if starts_with_str(&ts, "```") {
            a.remove(0);
            assert(views(a@) =~= av.drop_first());
        }
    }
    let ghost bv = views(a@);
    if a.len() > 0 {
        let last = a.len() - 1;
        let (s1, e1) = trim_bounds(&a[last]);
        let tt = copy_range(&a[last], s1, e1);
        if eq_str(&tt, "```") {
            a.pop();
            assert(views(a@) =~= bv.drop_last());
        }
    }
    let c = strip_blank_lines(a);
    join_char_vecs(&c, "\n")
}

} // verus!
