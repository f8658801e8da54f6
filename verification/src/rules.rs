//! Review rules: natural-language checks, organised by category, that tell
//! the model what to look for during a review.
//!
//! Rules come from a global and a project `rules.yml` (read at the program's
//! edge); project rules extend global ones, so a category named in both gets
//! the rules of both. Resolving picks the categories asked for (ignoring
//! ASCII case) and the rules whose file pattern matches a reviewed file, and
//! orders them by category, then name.

use vstd::prelude::*;
use crate::text::{
    capitalize_text, capitalized, chars_of, eq_ignore_ascii_case, join, lex_order, push_str,
    str_eq_ignore_ascii_case, str_equal, str_order, string_views, to_owned_string,
};

verus! {

// ---------------------------------------------------------------------------
// Severity and rules
// ---------------------------------------------------------------------------

/// Severity level for a review rule.
#[derive(Debug, Clone, Copy, PartialEq, Eq, Structural)]
pub enum Severity {
    /// Critical issue that must be fixed
    Error,
    /// Potential problem that should be addressed; the default
    Warning,
    /// Suggestion for improvement
    Info,
}

impl Default for Severity {
    fn default() -> (r: Self)
        ensures
            r == Severity::Warning,
    {
        Severity::Warning
    }
}

/// The lower-case name of a severity.
pub open spec fn severity_name(s: Severity) -> Seq<char> {
    match s {
        Severity::Error => "error"@,
        Severity::Warning => "warning"@,
        Severity::Info => "info"@,
    }
}

impl Severity {
    /// The severity's name, as its `Display` writes it.
    pub fn name(&self) -> (r: &'static str)
        ensures
            r@ == severity_name(*self),
    {
        match self {
            Severity::Error => "error",
            Severity::Warning => "warning",
            Severity::Info => "info",
        }
    }
}

/// A single review rule definition.
#[derive(Debug, Clone)]
pub struct Rule {
    /// Short identifier for the rule
    pub name: String,
    /// Natural language description of what to check
    pub description: String,
    /// Severity level when this rule is violated
    pub severity: Severity,
    /// Optional glob pattern for files this rule applies to
    pub files: Option<String>,
}

/// A rule as plain values: name, description, severity, file pattern.
pub type RuleView = (Seq<char>, Seq<char>, Severity, Option<Seq<char>>);

impl View for Rule {
    type V = RuleView;

    open spec fn view(&self) -> RuleView {
        (self.name@, self.description@, self.severity, match self.files {
            Some(f) => Some(f@),
            None => None,
        })
    }
}

impl Rule {
    /// A copy of the rule.
    pub fn duplicate(&self) -> (r: Rule)
        ensures
            r@ == self@,
    {
        Rule {
            name: self.name.clone(),
            description: self.description.clone(),
            severity: self.severity,
            files: match &self.files {
                Some(f) => Some(f.clone()),
                None => None,
            },
        }
    }
}

/// The views of a sequence of rules.
pub open spec fn rule_views(v: Seq<Rule>) -> Seq<RuleView> {
    v.map_values(|r: Rule| r@)
}

fn copy_rules(v: &Vec<Rule>) -> (r: Vec<Rule>)
    ensures
        rule_views(r@) == rule_views(v@),
{
    let mut r: Vec<Rule> = Vec::new();
    let mut i: usize = 0;
    while i < v.len()
        invariant
            i <= v@.len(),
            rule_views(r@) == rule_views(v@.take(i as int)),
        decreases v@.len() - i,
    {
        r.push(v[i].duplicate());
        proof {
            assert(rule_views(v@.take(i + 1)) =~= rule_views(v@.take(i as int)).push(v@[i as int]@));
        }
        i += 1;
    }
    assert(v@.take(v@.len() as int) =~= v@);
    r
}

fn append_rules(dst: &mut Vec<Rule>, src: &Vec<Rule>)
    ensures
        rule_views(final(dst)@) == rule_views(old(dst)@) + rule_views(src@),
{
    let ghost start = rule_views(dst@);
    let mut i: usize = 0;
    while i < src.len()
        invariant
            i <= src@.len(),
            rule_views(dst@) == start + rule_views(src@.take(i as int)),
        decreases src@.len() - i,
    {
        let ghost before = dst@;
        dst.push(src[i].duplicate());
        proof {
            assert(rule_views(dst@) =~= rule_views(before).push(src@[i as int]@));
            assert(rule_views(src@.take(i + 1)) =~= rule_views(src@.take(i as int)).push(src@[i as int]@));
        }
        i += 1;
    }
    assert(src@.take(src@.len() as int) =~= src@);
}

// ---------------------------------------------------------------------------
// Categories: an association list with distinct names
// ---------------------------------------------------------------------------

/// Rules keyed by category name, in the order the categories were added.
/// No name occurs twice.
#[derive(Debug)]
pub struct RuleCategories {
    entries: Vec<(String, Vec<Rule>)>,
}

/// A category as plain values.
pub type CategoryView = (Seq<char>, Seq<RuleView>);

/// The entries of a category list as plain values.
pub open spec fn entry_views(v: Seq<(String, Vec<Rule>)>) -> Seq<CategoryView> {
    v.map_values(|e: (String, Vec<Rule>)| (e.0@, rule_views(e.1@)))
}

/// No category name occurs twice.
pub open spec fn distinct_names(v: Seq<CategoryView>) -> bool {
    forall|i: int, j: int| 0 <= i < j < v.len() ==> #[trigger] v[i].0 != #[trigger] v[j].0
}

/// Where a name stands in an association list, if it does (the last
/// occurrence; in the lists of this module names are distinct).
pub open spec fn find_name<V>(v: Seq<(Seq<char>, V)>, name: Seq<char>) -> Option<int>
    decreases v.len(),
{
    if v.len() == 0 {
        None
    } else if v.last().0 == name {
        Some(v.len() - 1)
    } else {
        find_name(v.drop_last(), name)
    }
}

/// The list after `insert`: an entry of the same name is replaced in place,
/// else the entry is appended.
pub open spec fn insert_entry<V>(v: Seq<(Seq<char>, V)>, name: Seq<char>, rules: V) -> Seq<(Seq<char>, V)> {
    match find_name(v, name) {
        Some(i) => v.update(i, (name, rules)),
        None => v.push((name, rules)),
    }
}

/// The list after rules are appended to a category (created empty if absent).
pub open spec fn extend_entry(v: Seq<CategoryView>, name: Seq<char>, rules: Seq<RuleView>) -> Seq<CategoryView> {
    match find_name(v, name) {
        Some(i) => v.update(i, (name, v[i].1 + rules)),
        None => v.push((name, rules)),
    }
}

/// `find_name` finds the one index that holds the name.
pub proof fn lemma_find_name<V>(v: Seq<(Seq<char>, V)>, name: Seq<char>)
    ensures
        match find_name(v, name) {
            Some(i) => 0 <= i < v.len() && v[i].0 == name && forall|j: int| i < j < v.len() ==> v[j].0 != name,
            None => forall|j: int| 0 <= j < v.len() ==> v[j].0 != name,
        },
    decreases v.len(),
{
    if v.len() > 0 {
        lemma_find_name(v.drop_last(), name);
        if v.last().0 != name {
            assert forall|j: int| 0 <= j < v.len() - 1 implies v[j] == v.drop_last()[j] by {}
        }
    }
}

impl View for RuleCategories {
    type V = Seq<CategoryView>;

    closed spec fn view(&self) -> Seq<CategoryView> {
        entry_views(self.entries@)
    }
}

impl RuleCategories {
    /// No category name occurs twice.
    #[verifier::type_invariant]
    spec fn distinct(self) -> bool {
        distinct_names(entry_views(self.entries@))
    }

    /// An empty list.
    pub fn new() -> (r: Self)
        ensures
            r@ == Seq::<CategoryView>::empty(),
    {
        RuleCategories { entries: Vec::new() }
    }

    fn position(&self, name: &str) -> (r: Option<usize>)
        ensures
            match r {
                Some(k) => find_name(self@, name@) == Some(k as int),
                None => find_name(self@, name@) is None,
            },
    {
        proof {
            lemma_find_name(self@, name@);
        }
        let mut i = self.entries.len();
        assert(self@.take(self@.len() as int) =~= self@);
        while i > 0
            invariant
                i <= self@.len(),
                self@.len() == self.entries@.len(),
                forall|j: int| i <= j < self@.len() ==> self@[j].0 != name@,
                find_name(self@, name@) == find_name(self@.take(i as int), name@),
            decreases i,
        {
            let ghost t = self@.take(i as int);
            proof {
                assert(t.drop_last() =~= self@.take(i - 1));
                assert(t.last() == self@[i - 1]);
            }
            if str_equal(self.entries[i - 1].0.as_str(), name) {
                return Some(i - 1);
            }
            i -= 1;
        }
        assert(self@.take(0) =~= Seq::<CategoryView>::empty());
        None
    }

    /// Number of categories.
    pub fn len(&self) -> (n: usize)
        ensures
            n == self@.len(),
    {
        self.entries.len()
    }

    /// Whether there are no categories.
    pub fn is_empty(&self) -> (b: bool)
        ensures
            b == (self@.len() == 0),
    {
        self.entries.len() == 0
    }

    /// Whether a category of this name exists (names compare exactly).
    pub fn contains_key(&self, name: &str) -> (b: bool)
        ensures
            b == (find_name(self@, name@) is Some),
    {
        self.position(name).is_some()
    }

    /// The rules of a category, if it exists.
    pub fn get(&self, name: &str) -> (r: Option<&Vec<Rule>>)
        ensures
            match find_name(self@, name@) {
                Some(i) => r matches Some(v) && rule_views(v@) == self@[i].1,
                None => r is None,
            },
    {
        proof {
            lemma_find_name(self@, name@);
        }
        match self.position(name) {
            Some(i) => {
                Some(&self.entries[i].1)
            },
            None => None,
        }
    }

    /// Sets the rules of a category, replacing those it had; returns them.
    pub fn insert(&mut self, name: String, rules: Vec<Rule>) -> (r: Option<Vec<Rule>>)
        ensures
            final(self)@ == insert_entry(old(self)@, name@, rule_views(rules@)),
            match find_name(old(self)@, name@) {
                Some(i) => r matches Some(v) && rule_views(v@) == old(self)@[i].1,
                None => r is None,
            },
    {
        proof {
            lemma_find_name(self@, name@);
            use_type_invariant(&*self);
        }
        let pos = self.position(name.as_str());
        let ghost before = self.entries@;
        let ghost n = name@;
        let ghost rv = rule_views(rules@);
        let mut v: Vec<(String, Vec<Rule>)> = Vec::new();
        std::mem::swap(&mut v, &mut self.entries);
        let r = match pos {
            Some(i) => {
                let entry = v.remove(i);
                v.insert(i, (name, rules));
                proof {
                    assert(v@ =~= before.update(i as int, v@[i as int]));
                    assert(entry_views(v@) =~= insert_entry(entry_views(before), n, rv));
                }
                Some(entry.1)
            },
            None => {
                v.push((name, rules));
                proof {
                    assert(entry_views(v@) =~= entry_views(before).push((n, rv)));
                }
                None
            },
        };
        proof {
            assert forall|i: int, j: int| 0 <= i < j < v@.len() implies #[trigger] entry_views(v@)[i].0
                != #[trigger] entry_views(v@)[j].0 by {
                if pos is Some {
                    let k = pos->0 as int;
                    if i != k && j != k {
                        assert(entry_views(before)[i].0 != entry_views(before)[j].0);
                    }
                } else {
                    if j < before.len() {
                        assert(entry_views(before)[i].0 != entry_views(before)[j].0);
                    }
                }
            }
        }
        self.entries = v;
        r
    }

    /// Appends rules to a category, creating it if absent.
    pub fn extend(&mut self, name: &str, rules: &Vec<Rule>)
        ensures
            final(self)@ == extend_entry(old(self)@, name@, rule_views(rules@)),
    {
        proof {
            lemma_find_name(self@, name@);
            use_type_invariant(&*self);
        }
        let pos = self.position(name);
        let ghost before = self.entries@;
        let mut v: Vec<(String, Vec<Rule>)> = Vec::new();
        std::mem::swap(&mut v, &mut self.entries);
        match pos {
            Some(i) => {
                let mut entry = v.remove(i);
                append_rules(&mut entry.1, rules);
                v.insert(i, entry);
                proof {
                    assert(v@ =~= before.update(i as int, v@[i as int]));
                    assert(entry_views(v@) =~= extend_entry(entry_views(before), name@, rule_views(rules@)));
                }
            },
            None => {
                let copy = copy_rules(rules);
                v.push((to_owned_string(name), copy));
                proof {
                    assert(entry_views(v@) =~= entry_views(before).push((name@, rule_views(rules@))));
                }
            },
        }
        proof {
            assert forall|i: int, j: int| 0 <= i < j < v@.len() implies #[trigger] entry_views(v@)[i].0
                != #[trigger] entry_views(v@)[j].0 by {
                if pos is Some {
                    let k = pos->0 as int;
                    if i != k && j != k {
                        assert(entry_views(before)[i].0 != entry_views(before)[j].0);
                    }
                } else {
                    if j < before.len() {
                        assert(entry_views(before)[i].0 != entry_views(before)[j].0);
                    }
                }
            }
        }
        self.entries = v;
    }

    /// The category names, in order.
    pub fn keys(&self) -> (r: Vec<String>)
        ensures
            r@.len() == self@.len(),
            forall|i: int| 0 <= i < r@.len() ==> #[trigger] r@[i]@ == self@[i].0,
    {
        let mut r: Vec<String> = Vec::new();
        let mut i: usize = 0;
        while i < self.entries.len()
            invariant
                i <= self@.len(),
                r@.len() == i,
                forall|j: int| 0 <= j < i ==> #[trigger] r@[j]@ == self@[j].0,
            decreases self@.len() - i,
        {
            r.push(self.entries[i].0.clone());
            i += 1;
        }
        r
    }

    /// The entry at a position.
    pub fn entry_at(&self, i: usize) -> (r: (&String, &Vec<Rule>))
        requires
            i < self@.len(),
        ensures
            r.0@ == self@[i as int].0,
            rule_views(r.1@) == self@[i as int].1,
    {
        (&self.entries[i].0, &self.entries[i].1)
    }
}


// ---------------------------------------------------------------------------
// File patterns (the `glob` crate) and file names (std)
// ---------------------------------------------------------------------------

#[verifier::external_type_specification]
#[verifier::external_body]
pub struct ExGlobPattern(glob::Pattern);

/// Whether `glob::Pattern::new` accepts a pattern.
pub uninterp spec fn glob_compiles(pattern: Seq<char>) -> bool;

/// What `glob::Pattern::matches` (default match options) answers for a
/// pattern and a text.
pub uninterp spec fn glob_match(pattern: Seq<char>, text: Seq<char>) -> bool;

/// What `std::path::Path::file_name` gives for a path: its last normal
/// component, if it has one.
pub uninterp spec fn path_file_name(path: Seq<char>) -> Option<Seq<char>>;

/// A compiled glob pattern together with the text it was compiled from.
/// Only [`compile_glob`] builds one.
pub struct GlobPattern {
    source: String,
    compiled: glob::Pattern,
}

impl GlobPattern {
    /// The pattern text this was compiled from.
    pub closed spec fn source(&self) -> Seq<char> {
        self.source@
    }
}

/// Compiles a pattern with `glob::Pattern::new`: `Some` exactly when the
/// crate accepts it, carrying the pattern text.
#[verifier::external_body]
fn compile_glob(pattern: &str) -> (r: Option<GlobPattern>)
    ensures
        r is Some == glob_compiles(pattern@),
        r matches Some(g) ==> g.source() == pattern@,
{
    match glob::Pattern::new(pattern) {
        Ok(compiled) => Some(GlobPattern { source: pattern.to_string(), compiled }),
        Err(_) => None,
    }
}

/// `glob::Pattern::matches` on a compiled pattern; the answer is named by
/// [`glob_match`] over the text the pattern was compiled from.
#[verifier::external_body]
fn glob_matches(g: &GlobPattern, text: &str) -> (r: bool)
    ensures
        r == glob_match(g.source(), text@),
{
    g.compiled.matches(text)
}

/// The file name of a path (std `Path::file_name`), as text; named by
/// [`path_file_name`].
#[verifier::external_body]
pub(crate) fn file_name_of(path: &str) -> (r: Option<String>)
    ensures
        match r {
            Some(n) => path_file_name(path@) == Some(n@),
            None => path_file_name(path@) is None,
        },
{
    std::path::Path::new(path).file_name().map(|n| n.to_string_lossy().into_owned())
}

/// Whether a pattern matches a file: its whole path, or its file name.
pub open spec fn file_matches(pattern: Seq<char>, file: Seq<char>) -> bool {
    glob_match(pattern, file) || match path_file_name(file) {
        Some(n) => glob_match(pattern, n),
        None => false,
    }
}

/// Whether a pattern is valid and matches any of the files.
pub open spec fn any_file_matches(pattern: Seq<char>, files: Seq<Seq<char>>) -> bool {
    glob_compiles(pattern) && exists|i: int| 0 <= i < files.len() && file_matches(pattern, #[trigger] files[i])
}

/// Whether a rule applies to a review of these files: a rule without a
/// pattern, or a review without files, always applies.
pub open spec fn rule_applies(rule: RuleView, files: Seq<Seq<char>>) -> bool {
    match rule.3 {
        Some(p) => files.len() == 0 || any_file_matches(p, files),
        None => true,
    }
}

/// Whether a category is selected by the requested checks (none means all),
/// comparing names without regard to ASCII case.
pub open spec fn category_selected(category: Seq<char>, checks: Seq<Seq<char>>) -> bool {
    checks.len() == 0 || exists|i: int| 0 <= i < checks.len() && eq_ignore_ascii_case(#[trigger] checks[i], category)
}

// ---------------------------------------------------------------------------
// Resolved rules
// ---------------------------------------------------------------------------

/// A rule that has been resolved for a specific review context.
#[derive(Debug, Clone)]
pub struct ResolvedRule {
    /// Category this rule belongs to
    pub category: String,
    /// Rule identifier
    pub name: String,
    /// What to check
    pub description: String,
    /// Severity when violated
    pub severity: Severity,
}

/// A resolved rule as plain values: category, name, description, severity.
pub type ResolvedView = (Seq<char>, Seq<char>, Seq<char>, Severity);

impl View for ResolvedRule {
    type V = ResolvedView;

    open spec fn view(&self) -> ResolvedView {
        (self.category@, self.name@, self.description@, self.severity)
    }
}

impl ResolvedRule {
    /// A copy of the resolved rule.
    pub fn duplicate(&self) -> (r: ResolvedRule)
        ensures
            r@ == self@,
    {
        ResolvedRule {
            category: self.category.clone(),
            name: self.name.clone(),
            description: self.description.clone(),
            severity: self.severity,
        }
    }
}

/// The views of a sequence of resolved rules.
pub open spec fn resolved_views(v: Seq<ResolvedRule>) -> Seq<ResolvedView> {
    v.map_values(|r: ResolvedRule| r@)
}

/// A rule resolved into a category.
pub open spec fn resolve_rule_spec(category: Seq<char>, rule: RuleView) -> ResolvedView {
    (category, rule.0, rule.1, rule.2)
}

/// The rules of one category that apply to the files, resolved, in order.
pub open spec fn resolve_category(category: Seq<char>, rules: Seq<RuleView>, files: Seq<Seq<char>>) -> Seq<ResolvedView>
    decreases rules.len(),
{
    if rules.len() == 0 {
        seq![]
    } else {
        let prev = resolve_category(category, rules.drop_last(), files);
        if rule_applies(rules.last(), files) {
            prev.push(resolve_rule_spec(category, rules.last()))
        } else {
            prev
        }
    }
}

/// The selected categories with the rules of each that apply, in category
/// order; categories left without rules are omitted.
pub open spec fn filtered_spec(cats: Seq<CategoryView>, checks: Seq<Seq<char>>, files: Seq<Seq<char>>) -> Seq<(Seq<char>, Seq<ResolvedView>)>
    decreases cats.len(),
{
    if cats.len() == 0 {
        seq![]
    } else {
        let prev = filtered_spec(cats.drop_last(), checks, files);
        let c = cats.last();
        let rs = resolve_category(c.0, c.1, files);
        if category_selected(c.0, checks) && rs.len() > 0 {
            prev.push((c.0, rs))
        } else {
            prev
        }
    }
}

/// All groups' rules, concatenated in order.
pub open spec fn concat_groups(groups: Seq<(Seq<char>, Seq<ResolvedView>)>) -> Seq<ResolvedView>
    decreases groups.len(),
{
    if groups.len() == 0 {
        seq![]
    } else {
        concat_groups(groups.drop_last()) + groups.last().1
    }
}

/// Order of resolved rules by category, then name.
pub open spec fn key_before(a: ResolvedView, b: ResolvedView) -> bool {
    lex_order(a.0, b.0) < 0 || (lex_order(a.0, b.0) == 0 && lex_order(a.1, b.1) < 0)
}

/// Order of resolved rules by name alone.
pub open spec fn name_before(a: ResolvedView, b: ResolvedView) -> bool {
    lex_order(a.1, b.1) < 0
}

/// `e` inserted into `s` after every element it does not precede
/// (`by_name` selects the order: name alone, or category then name).
pub open spec fn insert_sorted(s: Seq<ResolvedView>, e: ResolvedView, by_name: bool) -> Seq<ResolvedView>
    decreases s.len(),
{
    if s.len() == 0 {
        seq![e]
    } else if (if by_name { name_before(e, s[0]) } else { key_before(e, s[0]) }) {
        seq![e] + s
    } else {
        seq![s[0]] + insert_sorted(s.drop_first(), e, by_name)
    }
}

/// Stable insertion sort (`slice::sort_by` gives the same result: a stable
/// sort is unique).
pub open spec fn sort_resolved(s: Seq<ResolvedView>, by_name: bool) -> Seq<ResolvedView>
    decreases s.len(),
{
    if s.len() == 0 {
        s
    } else {
        insert_sorted(sort_resolved(s.drop_last(), by_name), s.last(), by_name)
    }
}

/// Inserting at the first position whose element `e` precedes.
proof fn lemma_insert_sorted_at(s: Seq<ResolvedView>, e: ResolvedView, by_name: bool, p: int)
    requires
        0 <= p <= s.len(),
        forall|j: int| 0 <= j < p ==> !(if by_name { name_before(e, #[trigger] s[j]) } else { key_before(e, s[j]) }),
        p < s.len() ==> (if by_name { name_before(e, s[p]) } else { key_before(e, s[p]) }),
    ensures
        insert_sorted(s, e, by_name) == s.take(p) + seq![e] + s.skip(p),
    decreases s.len(),
{
    if s.len() == 0 {
        assert(s.take(p) + seq![e] + s.skip(p) =~= seq![e]);
    } else if p == 0 {
        assert(s.take(p) + seq![e] + s.skip(p) =~= seq![e] + s);
    } else {
        let t = s.drop_first();
        assert forall|j: int| 0 <= j < p - 1 implies !(if by_name { name_before(e, #[trigger] t[j]) } else { key_before(e, t[j]) }) by {
            assert(t[j] == s[j + 1]);
        }
        lemma_insert_sorted_at(t, e, by_name, p - 1);
        assert(s.take(p) + seq![e] + s.skip(p) =~= seq![s[0]] + (t.take(p - 1) + seq![e] + t.skip(p - 1)));
    }
}

fn precedes(e: &ResolvedRule, x: &ResolvedRule, by_name: bool) -> (b: bool)
    ensures
        b == (if by_name { name_before(e@, x@) } else { key_before(e@, x@) }),
{
    if by_name {
        str_order(e.name.as_str(), x.name.as_str()) < 0
    } else {
        let c = str_order(e.category.as_str(), x.category.as_str());
        c < 0 || (c == 0 && str_order(e.name.as_str(), x.name.as_str()) < 0)
    }
}

/// Sorts resolved rules (stable): by name, or by category then name.
fn sort_rules(v: Vec<ResolvedRule>, by_name: bool) -> (r: Vec<ResolvedRule>)
    ensures
        resolved_views(r@) == sort_resolved(resolved_views(v@), by_name),
{
    let mut out: Vec<ResolvedRule> = Vec::new();
    let mut i: usize = 0;
    while i < v.len()
        invariant
            i <= v@.len(),
            resolved_views(out@) == sort_resolved(resolved_views(v@.take(i as int)), by_name),
        decreases v@.len() - i,
    {
        let e = v[i].duplicate();
        let mut p: usize = 0;
        while p < out.len() && !precedes(&e, &out[p], by_name)
            invariant
                p <= out@.len(),
                forall|j: int| 0 <= j < p ==> !(if by_name { name_before(e@, #[trigger] resolved_views(out@)[j]) } else { key_before(e@, resolved_views(out@)[j]) }),
            decreases out@.len() - p,
        {
            p += 1;
        }
        let ghost before = resolved_views(out@);
        proof {
            lemma_insert_sorted_at(before, e@, by_name, p as int);
            assert(resolved_views(v@.take(i + 1)).drop_last() =~= resolved_views(v@.take(i as int)));
        }
        out.insert(p, e);
        proof {
            assert(resolved_views(out@) =~= before.take(p as int) + seq![e@] + before.skip(p as int));
        }
        i += 1;
    }
    assert(v@.take(v@.len() as int) =~= v@);
    out
}

/// Collection of resolved rules ready for prompt injection.
#[derive(Debug, Clone)]
pub struct ResolvedRules {
    /// The resolved rules
    pub rules: Vec<ResolvedRule>,
}

impl View for ResolvedRules {
    type V = Seq<ResolvedView>;

    open spec fn view(&self) -> Seq<ResolvedView> {
        resolved_views(self.rules@)
    }
}

impl Default for ResolvedRules {
    fn default() -> (r: Self)
        ensures
            r@.len() == 0,
    {
        ResolvedRules { rules: Vec::new() }
    }
}

/// One rule's line in a prompt section.
pub open spec fn rule_line(r: ResolvedView) -> Seq<char> {
    "- **"@ + r.1 + "** ["@ + severity_name(r.3) + "]: "@ + r.2 + "\n"@
}

/// The lines of rules, in order.
pub open spec fn rule_lines(rs: Seq<ResolvedView>) -> Seq<char>
    decreases rs.len(),
{
    if rs.len() == 0 {
        seq![]
    } else {
        rule_lines(rs.drop_last()) + rule_line(rs.last())
    }
}

fn push_rule_line(out: &mut String, r: &ResolvedRule)
    ensures
        final(out)@ == old(out)@ + rule_line(r@),
{
    push_str(out, "- **");
    push_str(out, r.name.as_str());
    push_str(out, "** [");
    push_str(out, r.severity.name());
    push_str(out, "]: ");
    push_str(out, r.description.as_str());
    push_str(out, "\n");
    proof {
        assert(final(out)@ =~= old(out)@ + rule_line(r@));
    }
}

/// The distinct categories of rules, in order of first appearance.
pub open spec fn distinct_categories(rs: Seq<ResolvedView>) -> Seq<Seq<char>>
    decreases rs.len(),
{
    if rs.len() == 0 {
        seq![]
    } else {
        let prev = distinct_categories(rs.drop_last());
        if prev.contains(rs.last().0) { prev } else { prev.push(rs.last().0) }
    }
}

/// `e` inserted into texts sorted in `str` order.
pub open spec fn insert_name(s: Seq<Seq<char>>, e: Seq<char>) -> Seq<Seq<char>>
    decreases s.len(),
{
    if s.len() == 0 {
        seq![e]
    } else if lex_order(e, s[0]) < 0 {
        seq![e] + s
    } else {
        seq![s[0]] + insert_name(s.drop_first(), e)
    }
}

/// Texts sorted in `str` order.
pub open spec fn sort_names(s: Seq<Seq<char>>) -> Seq<Seq<char>>
    decreases s.len(),
{
    if s.len() == 0 {
        s
    } else {
        insert_name(sort_names(s.drop_last()), s.last())
    }
}

proof fn lemma_insert_name_at(s: Seq<Seq<char>>, e: Seq<char>, p: int)
    requires
        0 <= p <= s.len(),
        forall|j: int| 0 <= j < p ==> !(lex_order(e, #[trigger] s[j]) < 0),
        p < s.len() ==> lex_order(e, s[p]) < 0,
    ensures
        insert_name(s, e) == s.take(p) + seq![e] + s.skip(p),
    decreases s.len(),
{
    if s.len() == 0 {
        assert(s.take(p) + seq![e] + s.skip(p) =~= seq![e]);
    } else if p == 0 {
        assert(s.take(p) + seq![e] + s.skip(p) =~= seq![e] + s);
    } else {
        let t = s.drop_first();
        assert forall|j: int| 0 <= j < p - 1 implies !(lex_order(e, #[trigger] t[j]) < 0) by {
            assert(t[j] == s[j + 1]);
        }
        lemma_insert_name_at(t, e, p - 1);
        assert(s.take(p) + seq![e] + s.skip(p) =~= seq![s[0]] + (t.take(p - 1) + seq![e] + t.skip(p - 1)));
    }
}

/// The rules of one category, in order.
pub open spec fn in_category(rs: Seq<ResolvedView>, c: Seq<char>) -> Seq<ResolvedView>
    decreases rs.len(),
{
    if rs.len() == 0 {
        seq![]
    } else {
        let prev = in_category(rs.drop_last(), c);
        if rs.last().0 == c { prev.push(rs.last()) } else { prev }
    }
}

/// The block of one category in a prompt section.
pub open spec fn category_block(rs: Seq<ResolvedView>, c: Seq<char>) -> Seq<char> {
    "\n### "@ + capitalized(c) + "\n"@ + rule_lines(in_category(rs, c))
}

/// The blocks of the given categories, in order.
pub open spec fn category_blocks(rs: Seq<ResolvedView>, cs: Seq<Seq<char>>) -> Seq<char>
    decreases cs.len(),
{
    if cs.len() == 0 {
        seq![]
    } else {
        category_blocks(rs, cs.drop_last()) + category_block(rs, cs.last())
    }
}

/// The markdown section for rules: nothing for no rules; else a heading and,
/// for each category in `str` order, a capitalised heading and its rules.
pub open spec fn prompt_section(rs: Seq<ResolvedView>) -> Seq<char> {
    if rs.len() == 0 {
        seq![]
    } else {
        "\n## Review Rules\n\nApply these rules during your review:\n"@ + category_blocks(rs, sort_names(distinct_categories(rs)))
    }
}

/// The markdown section for the rules of one category.
pub open spec fn category_prompt_section(rs: Seq<ResolvedView>, category: Seq<char>) -> Seq<char> {
    if rs.len() == 0 {
        seq![]
    } else {
        "\n## Review Rules - "@ + capitalized(category) + "\n\nApply these "@ + category + " rules during your review:\n\n"@
            + rule_lines(rs)
    }
}

fn contains_name(v: &Vec<String>, s: &str) -> (b: bool)
    ensures
        b == string_views(v@).contains(s@),
{
    let mut i: usize = 0;
    while i < v.len()
        invariant
            i <= v@.len(),
            forall|j: int| 0 <= j < i ==> v@[j]@ != s@,
        decreases v@.len() - i,
    {
        if str_equal(v[i].as_str(), s) {
            assert(string_views(v@)[i as int] == s@);
            return true;
        }
        i += 1;
    }
    proof {
        if string_views(v@).contains(s@) {
            let k = choose|k: int| 0 <= k < string_views(v@).len() && string_views(v@)[k] == s@;
            assert(v@[k]@ == s@);
        }
    }
    false
}

impl ResolvedRules {
    /// Format rules as a markdown section for prompt injection.
    pub fn to_prompt_section(&self) -> (r: String)
        ensures
            r@ == prompt_section(self@),
    {
        if self.rules.len() == 0 {
            return String::new();
        }
        let mut output = to_owned_string("\n## Review Rules\n\nApply these rules during your review:\n");
        let ghost header = output@;
        // Distinct categories, in order of first appearance.
        let mut cats: Vec<String> = Vec::new();
        let mut i: usize = 0;
        while i < self.rules.len()
            invariant
                i <= self@.len(),
                string_views(cats@) == distinct_categories(self@.take(i as int)),
            decreases self@.len() - i,
        {
            proof {
                assert(self@.take(i + 1).drop_last() =~= self@.take(i as int));
            }
            if !contains_name(&cats, self.rules[i].category.as_str()) {
                let ghost before = cats@;
                cats.push(self.rules[i].category.clone());
                assert(string_views(cats@) =~= string_views(before).push(self@[i as int].0));
            }
            i += 1;
        }
        assert(self@.take(self@.len() as int) =~= self@);
        // Sort them.
        let mut sorted: Vec<String> = Vec::new();
        let mut k: usize = 0;
        while k < cats.len()
            invariant
                k <= cats@.len(),
                string_views(sorted@) == sort_names(string_views(cats@.take(k as int))),
            decreases cats@.len() - k,
        {
            let mut p: usize = 0;
            while p < sorted.len() && !(str_order(cats[k].as_str(), sorted[p].as_str()) < 0)
                invariant
                    k < cats@.len(),
                    p <= sorted@.len(),
                    forall|j: int| 0 <= j < p ==> !(lex_order(cats@[k as int]@, #[trigger] string_views(sorted@)[j]) < 0),
                decreases sorted@.len() - p,
            {
                p += 1;
            }
            let ghost before = string_views(sorted@);
            proof {
                lemma_insert_name_at(before, cats@[k as int]@, p as int);
                assert(string_views(cats@.take(k + 1)).drop_last() =~= string_views(cats@.take(k as int)));
            }
            sorted.insert(p, cats[k].clone());
            proof {
                assert(string_views(sorted@) =~= before.take(p as int) + seq![cats@[k as int]@] + before.skip(p as int));
            }
            k += 1;
        }
        assert(cats@.take(cats@.len() as int) =~= cats@);
        // One block per category.
        let mut c: usize = 0;
        while c < sorted.len()
            invariant
                c <= sorted@.len(),
                output@ == header + category_blocks(self@, string_views(sorted@).take(c as int)),
            decreases sorted@.len() - c,
        {
            let ghost at_start = output@;
            push_str(&mut output, "\n### ");
            let cap = capitalize_text(sorted[c].as_str());
            push_str(&mut output, cap.as_str());
            push_str(&mut output, "\n");
            let ghost block_start = output@;
            let mut j: usize = 0;
            while j < self.rules.len()
                invariant
                    c < sorted@.len(),
                    j <= self@.len(),
                    output@ == block_start + rule_lines(in_category(self@.take(j as int), sorted@[c as int]@)),
                decreases self@.len() - j,
            {
                proof {
                    assert(self@.take(j + 1).drop_last() =~= self@.take(j as int));
                }
                if str_equal(self.rules[j].category.as_str(), sorted[c].as_str()) {
                    push_rule_line(&mut output, &self.rules[j]);
                    proof {
                        let prev = in_category(self@.take(j as int), sorted@[c as int]@);
                        assert(prev.push(self@[j as int]).drop_last() =~= prev);
                    }
                }
                j += 1;
            }
            proof {
                assert(self@.take(self@.len() as int) =~= self@);
                assert(string_views(sorted@).take(c + 1).drop_last() =~= string_views(sorted@).take(c as int));
                assert(output@ =~= at_start + category_block(self@, sorted@[c as int]@));
            }
            c += 1;
        }
        assert(string_views(sorted@).take(sorted@.len() as int) =~= string_views(sorted@));
        output
    }

    /// Format the rules of one category as a markdown section.
    pub fn to_category_prompt_section(&self, category: &str) -> (r: String)
        ensures
            r@ == category_prompt_section(self@, category@),
    {
        if self.rules.len() == 0 {
            return String::new();
        }
        let mut output = to_owned_string("\n## Review Rules - ");
        let cap = capitalize_text(category);
        push_str(&mut output, cap.as_str());
        push_str(&mut output, "\n\nApply these ");
        push_str(&mut output, category);
        push_str(&mut output, " rules during your review:\n\n");
        let ghost head = output@;
        let mut j: usize = 0;
        while j < self.rules.len()
            invariant
                j <= self@.len(),
                output@ == head + rule_lines(self@.take(j as int)),
            decreases self@.len() - j,
        {
            proof {
                assert(self@.take(j + 1).drop_last() =~= self@.take(j as int));
            }
            push_rule_line(&mut output, &self.rules[j]);
            j += 1;
        }
        assert(self@.take(self@.len() as int) =~= self@);
        output
    }

    /// Returns true if there are no resolved rules.
    pub fn is_empty(&self) -> (b: bool)
        ensures
            b == (self@.len() == 0),
    {
        self.rules.len() == 0
    }

    /// Returns the number of rules.
    pub fn len(&self) -> (n: usize)
        ensures
            n == self@.len(),
    {
        self.rules.len()
    }
}


// ---------------------------------------------------------------------------
// Rules grouped by category
// ---------------------------------------------------------------------------

/// Collection of resolved rules organised by category, used for one model
/// call per category.
#[derive(Debug, Clone)]
pub struct CategoryResolvedRules {
    categories: Vec<(String, ResolvedRules)>,
}

/// A category's resolved rules as plain values.
pub type GroupView = (Seq<char>, Seq<ResolvedView>);

/// The groups as plain values.
pub open spec fn group_views(v: Seq<(String, ResolvedRules)>) -> Seq<GroupView> {
    v.map_values(|e: (String, ResolvedRules)| (e.0@, e.1@))
}

impl View for CategoryResolvedRules {
    type V = Seq<GroupView>;

    closed spec fn view(&self) -> Seq<GroupView> {
        group_views(self.categories@)
    }
}

impl Default for CategoryResolvedRules {
    fn default() -> (r: Self)
        ensures
            r@.len() == 0,
    {
        CategoryResolvedRules { categories: Vec::new() }
    }
}

fn copy_resolved(v: &Vec<ResolvedRule>) -> (r: Vec<ResolvedRule>)
    ensures
        resolved_views(r@) == resolved_views(v@),
{
    let mut r: Vec<ResolvedRule> = Vec::new();
    let mut i: usize = 0;
    while i < v.len()
        invariant
            i <= v@.len(),
            resolved_views(r@) == resolved_views(v@.take(i as int)),
        decreases v@.len() - i,
    {
        r.push(v[i].duplicate());
        assert(resolved_views(v@.take(i + 1)) =~= resolved_views(v@.take(i as int)).push(v@[i as int]@));
        i += 1;
    }
    assert(v@.take(v@.len() as int) =~= v@);
    r
}

impl CategoryResolvedRules {
    fn position(&self, name: &str) -> (r: Option<usize>)
        ensures
            match r {
                Some(k) => find_name(self@, name@) == Some(k as int),
                None => find_name(self@, name@) is None,
            },
    {
        let mut i = self.categories.len();
        assert(self@.take(self@.len() as int) =~= self@);
        while i > 0
            invariant
                i <= self@.len(),
                self@.len() == self.categories@.len(),
                find_name(self@, name@) == find_name(self@.take(i as int), name@),
            decreases i,
        {
            let ghost t = self@.take(i as int);
            proof {
                assert(t.drop_last() =~= self@.take(i - 1));
                assert(t.last() == self@[i - 1]);
            }
            if str_equal(self.categories[i - 1].0.as_str(), name) {
                return Some(i - 1);
            }
            i -= 1;
        }
        assert(self@.take(0) =~= Seq::<GroupView>::empty());
        None
    }

    /// Returns true if there are no categories with rules.
    pub fn is_empty(&self) -> (b: bool)
        ensures
            b == forall|i: int| 0 <= i < self@.len() ==> (#[trigger] self@[i]).1.len() == 0,
    {
        let mut i: usize = 0;
        while i < self.categories.len()
            invariant
                i <= self@.len(),
                self@.len() == self.categories@.len(),
                forall|j: int| 0 <= j < i ==> (#[trigger] self@[j]).1.len() == 0,
            decreases self@.len() - i,
        {
            if !self.categories[i].1.is_empty() {
                assert(self@[i as int].1.len() != 0);
                return false;
            }
            i += 1;
        }
        true
    }

    /// Returns the number of categories.
    pub fn category_count(&self) -> (n: usize)
        ensures
            n == self@.len(),
    {
        self.categories.len()
    }

    /// The categories and their rules, in order.
    pub fn iter(&self) -> (r: std::slice::Iter<'_, (String, ResolvedRules)>)
        ensures
            group_views(vstd::std_specs::slice::into_iter_elts(r)) == self@,
    {
        let it = self.categories.iter();
        proof {
            broadcast use vstd::std_specs::slice::axiom_spec_slice_iter;
            assert(self.categories@.as_ref().unref() =~= self.categories@);
        }
        it
    }

    /// Flatten all categories into one list, ordered by category, then name.
    pub fn flatten(&self) -> (r: ResolvedRules)
        ensures
            r@ == sort_resolved(concat_groups(self@), false),
    {
        let mut all: Vec<ResolvedRule> = Vec::new();
        let mut i: usize = 0;
        while i < self.categories.len()
            invariant
                i <= self@.len(),
                self@.len() == self.categories@.len(),
                resolved_views(all@) == concat_groups(self@.take(i as int)),
            decreases self@.len() - i,
        {
            let ghost before = resolved_views(all@);
            let mut copy = copy_resolved(&self.categories[i].1.rules);
            all.append(&mut copy);
            proof {
                assert(self@.take(i + 1).drop_last() =~= self@.take(i as int));
                assert(resolved_views(all@) =~= before + self@[i as int].1);
            }
            i += 1;
        }
        assert(self@.take(self@.len() as int) =~= self@);
        ResolvedRules { rules: sort_rules(all, false) }
    }

    /// Sets the rules of a category, replacing those it had.
    pub fn insert(&mut self, category: String, rules: ResolvedRules)
        ensures
            final(self)@ == insert_entry(old(self)@, category@, rules@),
    {
        proof {
            lemma_find_name(self@, category@);
        }
        let ghost before = self.categories@;
        let ghost n = category@;
        let ghost rv = rules@;
        match self.position(category.as_str()) {
            Some(i) => {
                self.categories.remove(i);
                self.categories.insert(i, (category, rules));
                proof {
                    assert(self.categories@ =~= before.update(i as int, self.categories@[i as int]));
                    assert(self@ =~= insert_entry(group_views(before), n, rv));
                }
            },
            None => {
                self.categories.push((category, rules));
                proof {
                    assert(self@ =~= group_views(before).push((n, rv)));
                }
            },
        }
    }

    /// Get rules for a specific category.
    pub fn get(&self, category: &str) -> (r: Option<&ResolvedRules>)
        ensures
            match find_name(self@, category@) {
                Some(i) => r matches Some(v) && v@ == self@[i].1,
                None => r is None,
            },
    {
        proof {
            lemma_find_name(self@, category@);
        }
        match self.position(category) {
            Some(i) => Some(&self.categories[i].1),
            None => None,
        }
    }
}

// ---------------------------------------------------------------------------
// The rules configuration
// ---------------------------------------------------------------------------

/// Configuration containing all review rules organised by category.
#[derive(Debug)]
pub struct RulesConfig {
    /// Rules organised by category (e.g., "style", "security", "performance")
    pub categories: RuleCategories,
}

impl Default for RulesConfig {
    fn default() -> (r: Self)
        ensures
            r.categories@.len() == 0,
    {
        RulesConfig { categories: RuleCategories::new() }
    }
}

/// The categories after `merge`: each category of `other`, in order, has its
/// rules appended to the same category here, or is added.
pub open spec fn merge_spec(mine: Seq<CategoryView>, other: Seq<CategoryView>) -> Seq<CategoryView>
    decreases other.len(),
{
    if other.len() == 0 {
        mine
    } else {
        let prev = merge_spec(mine, other.drop_last());
        extend_entry(prev, other.last().0, other.last().1)
    }
}

/// The built-in default rules.
pub open spec fn default_rules() -> Seq<CategoryView> {
    seq![
        ("style"@, seq![
            ("doc-comments"@, "Public functions and types should have doc comments"@, Severity::Warning, Some("*.rs"@)),
            ("naming-conventions"@, "Follow Rust naming conventions (snake_case for functions, CamelCase for types)"@, Severity::Warning, Some("*.rs"@)),
        ]),
        ("security"@, seq![
            ("no-unwrap"@, "Avoid using .unwrap() outside of tests - use proper error handling"@, Severity::Error, Some("src/**/*.rs"@)),
            ("no-hardcoded-secrets"@, "Do not hardcode secrets, API keys, or passwords"@, Severity::Error, None),
            ("input-validation"@, "Validate and sanitize external input before use"@, Severity::Error, None),
        ]),
        ("performance"@, seq![
            ("avoid-clone"@, "Avoid unnecessary .clone() calls - prefer borrowing when possible"@, Severity::Warning, Some("*.rs"@)),
            ("efficient-collections"@, "Use appropriate collection types (Vec vs HashSet vs HashMap) for the use case"@, Severity::Info, Some("*.rs"@)),
        ]),
        ("correctness"@, seq![
            ("error-handling"@, "Handle all error cases explicitly - don't ignore Results"@, Severity::Error, Some("*.rs"@)),
            ("boundary-conditions"@, "Check for boundary conditions (empty collections, zero values, overflow)"@, Severity::Warning, None),
        ]),
    ]
}

fn make_rule(name: &str, description: &str, severity: Severity, files: Option<&str>) -> (r: Rule)
    ensures
        r@ == (name@, description@, severity, match files { Some(f) => Some(f@), None => None }),
{
    Rule {
        name: to_owned_string(name),
        description: to_owned_string(description),
        severity,
        files: match files {
            Some(f) => Some(to_owned_string(f)),
            None => None,
        },
    }
}

/// Distinct names are never found before the end: inserting a new name into
/// an empty or name-distinct list appends it.
proof fn lemma_find_absent<V>(v: Seq<(Seq<char>, V)>, name: Seq<char>)
    requires
        forall|j: int| 0 <= j < v.len() ==> v[j].0 != name,
    ensures
        find_name(v, name) is None,
{
    lemma_find_name(v, name);
}

impl RulesConfig {
    /// Returns the built-in default rules.
    pub fn defaults() -> (r: Self)
        ensures
            r.categories@ == default_rules(),
    {
        proof {
            reveal_strlit("style");
            reveal_strlit("security");
            reveal_strlit("performance");
            reveal_strlit("correctness");
            assert("style"@.len() == 5 && "security"@.len() == 8 && "performance"@.len() == 11);
            assert("correctness"@.len() == 11 && "correctness"@[0] != "performance"@[0]);
            assert("correctness"@ != "performance"@);
        }
        let mut categories = RuleCategories::new();
        let style = vec![
            make_rule("doc-comments", "Public functions and types should have doc comments", Severity::Warning, Some("*.rs")),
            make_rule("naming-conventions", "Follow Rust naming conventions (snake_case for functions, CamelCase for types)", Severity::Warning, Some("*.rs")),
        ];
        let ghost s1 = rule_views(style@);
        proof { lemma_find_absent(categories@, "style"@); }
        categories.insert(to_owned_string("style"), style);
        let security = vec![
            make_rule("no-unwrap", "Avoid using .unwrap() outside of tests - use proper error handling", Severity::Error, Some("src/**/*.rs")),
            make_rule("no-hardcoded-secrets", "Do not hardcode secrets, API keys, or passwords", Severity::Error, None),
            make_rule("input-validation", "Validate and sanitize external input before use", Severity::Error, None),
        ];
        let ghost s2 = rule_views(security@);
        proof {
            assert(categories@ =~= seq![("style"@, s1)]);
            lemma_find_absent(categories@, "security"@);
        }
        categories.insert(to_owned_string("security"), security);
        let performance = vec![
            make_rule("avoid-clone", "Avoid unnecessary .clone() calls - prefer borrowing when possible", Severity::Warning, Some("*.rs")),
            make_rule("efficient-collections", "Use appropriate collection types (Vec vs HashSet vs HashMap) for the use case", Severity::Info, Some("*.rs")),
        ];
        let ghost s3 = rule_views(performance@);
        proof {
            assert(categories@ =~= seq![("style"@, s1), ("security"@, s2)]);
            lemma_find_absent(categories@, "performance"@);
        }
        categories.insert(to_owned_string("performance"), performance);
        let correctness = vec![
            make_rule("error-handling", "Handle all error cases explicitly - don't ignore Results", Severity::Error, Some("*.rs")),
            make_rule("boundary-conditions", "Check for boundary conditions (empty collections, zero values, overflow)", Severity::Warning, None),
        ];
        let ghost s4 = rule_views(correctness@);
        proof {
            assert(categories@ =~= seq![("style"@, s1), ("security"@, s2), ("performance"@, s3)]);
            lemma_find_absent(categories@, "correctness"@);
        }
        categories.insert(to_owned_string("correctness"), correctness);
        proof {
            assert(s1 =~= default_rules()[0].1);
            assert(s2 =~= default_rules()[1].1);
            assert(s3 =~= default_rules()[2].1);
            assert(s4 =~= default_rules()[3].1);
            assert(categories@ =~= default_rules());
        }
        RulesConfig { categories }
    }

    /// Merge another config into this one: rules of the other config are
    /// appended to existing categories; new categories are added.
    pub fn merge(&mut self, other: RulesConfig)
        ensures
            final(self).categories@ == merge_spec(old(self).categories@, other.categories@),
    {
        let n = other.categories.len();
        let mut i: usize = 0;
        while i < n
            invariant
                n == other.categories@.len(),
                i <= n,
                self.categories@ == merge_spec(old(self).categories@, other.categories@.take(i as int)),
            decreases n - i,
        {
            let (name, rules) = other.categories.entry_at(i);
            self.categories.extend(name.as_str(), rules);
            proof {
                assert(other.categories@.take(i + 1).drop_last() =~= other.categories@.take(i as int));
            }
            i += 1;
        }
        assert(other.categories@.take(n as int) =~= other.categories@);
    }

    /// Whether a category is selected by the checks (none selects all),
    /// comparing without regard to ASCII case.
    pub fn category_matches_checks(category: &str, checks: &[String]) -> (b: bool)
        ensures
            b == category_selected(category@, string_views(checks@)),
    {
        if checks.len() == 0 {
            return true;
        }
        let mut i: usize = 0;
        while i < checks.len()
            invariant
                i <= checks@.len(),
                forall|j: int| 0 <= j < i ==> !eq_ignore_ascii_case(#[trigger] string_views(checks@)[j], category@),
            decreases checks@.len() - i,
        {
            if str_eq_ignore_ascii_case(checks[i].as_str(), category) {
                assert(eq_ignore_ascii_case(string_views(checks@)[i as int], category@));
                return true;
            }
            i += 1;
        }
        false
    }

    /// Whether a glob pattern is valid and matches any of the files, by full
    /// path or by file name.
    pub fn matches_any_file(pattern: &str, files: &[String]) -> (b: bool)
        ensures
            b == any_file_matches(pattern@, string_views(files@)),
    {
        let g = match compile_glob(pattern) {
            Some(g) => g,
            None => return false,
        };
        let mut i: usize = 0;
        while i < files.len()
            invariant
                g.source() == pattern@,
                glob_compiles(pattern@),
                i <= files@.len(),
                forall|j: int| 0 <= j < i ==> !file_matches(pattern@, #[trigger] string_views(files@)[j]),
            decreases files@.len() - i,
        {
            let f = files[i].as_str();
            let mut hit = glob_matches(&g, f);
            if !hit {
                if let Some(n) = file_name_of(f) {
                    hit = glob_matches(&g, n.as_str());
                }
            }
            if hit {
                assert(file_matches(pattern@, string_views(files@)[i as int]));
                return true;
            }
            i += 1;
        }
        false
    }

    /// Whether a rule applies to any of the given files.
    pub fn rule_matches_files(rule: &Rule, files: &[String]) -> (b: bool)
        ensures
            b == rule_applies(rule@, string_views(files@)),
    {
        match &rule.files {
            Some(pattern) => {
                if files.len() == 0 {
                    true
                } else {
                    Self::matches_any_file(pattern.as_str(), files)
                }
            },
            None => true,
        }
    }

    /// A rule resolved into a category.
    pub fn resolve_rule(category: &str, rule: &Rule) -> (r: ResolvedRule)
        ensures
            r@ == resolve_rule_spec(category@, rule@),
    {
        ResolvedRule {
            category: to_owned_string(category),
            name: rule.name.clone(),
            description: rule.description.clone(),
            severity: rule.severity,
        }
    }

    /// The selected categories with their applying rules, resolved; those
    /// left without rules are omitted.
    pub fn filter_rules(&self, checks: &[String], files: &[String]) -> (r: Vec<(String, Vec<ResolvedRule>)>)
        ensures
            r@.map_values(|e: (String, Vec<ResolvedRule>)| (e.0@, resolved_views(e.1@)))
                == filtered_spec(self.categories@, string_views(checks@), string_views(files@)),
    {
        let ghost cv = string_views(checks@);
        let ghost fv = string_views(files@);
        let mut result: Vec<(String, Vec<ResolvedRule>)> = Vec::new();
        let n = self.categories.len();
        let mut i: usize = 0;
        while i < n
            invariant
                n == self.categories@.len(),
                i <= n,
                cv == string_views(checks@),
                fv == string_views(files@),
                result@.map_values(|e: (String, Vec<ResolvedRule>)| (e.0@, resolved_views(e.1@)))
                    == filtered_spec(self.categories@.take(i as int), cv, fv),
            decreases n - i,
        {
            let (category, rules) = self.categories.entry_at(i);
            let ghost c = self.categories@[i as int];
            proof {
                assert(self.categories@.take(i + 1).drop_last() =~= self.categories@.take(i as int));
            }
            if Self::category_matches_checks(category.as_str(), checks) {
                let mut resolved: Vec<ResolvedRule> = Vec::new();
                let mut j: usize = 0;
                while j < rules.len()
                    invariant
                        j <= rules@.len(),
                        rule_views(rules@) == c.1,
                        category@ == c.0,
                        fv == string_views(files@),
                        resolved_views(resolved@) == resolve_category(c.0, c.1.take(j as int), fv),
                    decreases rules@.len() - j,
                {
                    proof {
                        assert(c.1.take(j + 1).drop_last() =~= c.1.take(j as int));
                        assert(c.1.take(j + 1).last() == rules@[j as int]@);
                    }
                    if Self::rule_matches_files(&rules[j], files) {
                        let ghost before = resolved_views(resolved@);
                        resolved.push(Self::resolve_rule(category.as_str(), &rules[j]));
                        assert(resolved_views(resolved@) =~= before.push(resolve_rule_spec(c.0, rules@[j as int]@)));
                    }
                    j += 1;
                }
                assert(c.1.take(rules@.len() as int) =~= c.1);
                if resolved.len() > 0 {
                    let ghost before = result@;
                    let ghost rv = resolved_views(resolved@);
                    result.push((category.clone(), resolved));
                    assert(result@.map_values(|e: (String, Vec<ResolvedRule>)| (e.0@, resolved_views(e.1@)))
                        =~= before.map_values(|e: (String, Vec<ResolvedRule>)| (e.0@, resolved_views(e.1@))).push((c.0, rv)));
                }
            } else {
                proof {
                    assert(!category_selected(c.0, cv));
                }
            }
            i += 1;
        }
        assert(self.categories@.take(n as int) =~= self.categories@);
        result
    }

    /// Resolve rules for the selected categories and files, ordered by
    /// category, then name.
    pub fn resolve(&self, checks: &[String], files: &[String]) -> (r: ResolvedRules)
        ensures
            r@ == sort_resolved(concat_groups(filtered_spec(self.categories@, string_views(checks@), string_views(files@))), false),
    {
        let filtered = self.filter_rules(checks, files);
        let ghost fs = filtered@.map_values(|e: (String, Vec<ResolvedRule>)| (e.0@, resolved_views(e.1@)));
        let mut all: Vec<ResolvedRule> = Vec::new();
        let mut i: usize = 0;
        while i < filtered.len()
            invariant
                i <= filtered@.len(),
                fs == filtered@.map_values(|e: (String, Vec<ResolvedRule>)| (e.0@, resolved_views(e.1@))),
                resolved_views(all@) == concat_groups(fs.take(i as int)),
            decreases filtered@.len() - i,
        {
            let ghost before = resolved_views(all@);
            let mut copy = copy_resolved(&filtered[i].1);
            all.append(&mut copy);
            proof {
                assert(fs.take(i + 1).drop_last() =~= fs.take(i as int));
                assert(resolved_views(all@) =~= before + fs[i as int].1);
            }
            i += 1;
        }
        assert(fs.take(filtered@.len() as int) =~= fs);
        ResolvedRules { rules: sort_rules(all, false) }
    }

    /// Resolve rules grouped by category; each category's rules ordered by
    /// name.
    /// Flattened, the result is what [`RulesConfig::resolve`] gives.
    pub fn resolve_by_category(&self, checks: &[String], files: &[String]) -> (r: CategoryResolvedRules)
        ensures
            r@ == by_category_spec(filtered_spec(self.categories@, string_views(checks@), string_views(files@))),
            distinct_names(self.categories@),
            sort_resolved(concat_groups(r@), false)
                == sort_resolved(concat_groups(filtered_spec(self.categories@, string_views(checks@), string_views(files@))), false),
            forall|k: int| 0 <= k < r@.len() ==> (#[trigger] r@[k]).1.len() > 0 && sorted_by(r@[k].1, true),
    {
        proof {
            use_type_invariant(&self.categories);
            lemma_flatten_matches_resolve(self.categories@, string_views(checks@), string_views(files@));
            lemma_grouped_sorted_nonempty(self.categories@, string_views(checks@), string_views(files@));
        }
        let filtered = self.filter_rules(checks, files);
        let ghost fs = filtered@.map_values(|e: (String, Vec<ResolvedRule>)| (e.0@, resolved_views(e.1@)));
        let mut out = CategoryResolvedRules::default();
        let mut i: usize = 0;
        while i < filtered.len()
            invariant
                i <= filtered@.len(),
                fs == filtered@.map_values(|e: (String, Vec<ResolvedRule>)| (e.0@, resolved_views(e.1@))),
                out@ == by_category_spec(fs.take(i as int)),
            decreases filtered@.len() - i,
        {
            let copy = copy_resolved(&filtered[i].1);
            let sorted = sort_rules(copy, true);
            out.insert(filtered[i].0.clone(), ResolvedRules { rules: sorted });
            proof {
                assert(fs.take(i + 1).drop_last() =~= fs.take(i as int));
            }
            i += 1;
        }
        assert(fs.take(filtered@.len() as int) =~= fs);
        out
    }
}

/// The groups after `resolve_by_category`: each filtered category's rules,
/// ordered by name, inserted under its name.
pub open spec fn by_category_spec(groups: Seq<(Seq<char>, Seq<ResolvedView>)>) -> Seq<GroupView>
    decreases groups.len(),
{
    if groups.len() == 0 {
        seq![]
    } else {
        insert_entry(by_category_spec(groups.drop_last()), groups.last().0, sort_resolved(groups.last().1, true))
    }
}

/// The first name equal to `check` ignoring ASCII case, if one is.
pub open spec fn first_ci_match(names: Seq<Seq<char>>, check: Seq<char>) -> Option<int> {
    if exists|i: int| 0 <= i < names.len() && eq_ignore_ascii_case(#[trigger] names[i], check) {
        Some(choose|i: int| 0 <= i < names.len() && eq_ignore_ascii_case(#[trigger] names[i], check)
            && forall|j: int| 0 <= j < i ==> !eq_ignore_ascii_case(#[trigger] names[j], check))
    } else {
        None
    }
}

/// The warning for a check that names no category.
pub open spec fn unknown_check_message(check: Seq<char>, names: Seq<Seq<char>>) -> Seq<char> {
    "warning: no category named '"@ + check + "' found (available: "@ + join(names, ", "@) + ")"@
}

/// The warning for a category that was asked for but has no rule for the
/// files.
pub open spec fn unmatched_category_message(category: Seq<char>) -> Seq<char> {
    "warning: category '"@ + category + "' has no rules matching the specified files"@
}

/// A warning for each check that names no category, in order.
pub open spec fn unknown_check_warnings(names: Seq<Seq<char>>, checks: Seq<Seq<char>>) -> Seq<Seq<char>>
    decreases checks.len(),
{
    if checks.len() == 0 {
        seq![]
    } else {
        let prev = unknown_check_warnings(names, checks.drop_last());
        if first_ci_match(names, checks.last()) is None {
            prev.push(unknown_check_message(checks.last(), names))
        } else {
            prev
        }
    }
}

/// A warning for each check that names a category none of whose rules
/// apply, in order, naming the first such category.
pub open spec fn unmatched_check_warnings(names: Seq<Seq<char>>, matched: Seq<Seq<char>>, checks: Seq<Seq<char>>) -> Seq<Seq<char>>
    decreases checks.len(),
{
    if checks.len() == 0 {
        seq![]
    } else {
        let prev = unmatched_check_warnings(names, matched, checks.drop_last());
        match first_ci_match(names, checks.last()) {
            Some(i) => if first_ci_match(matched, checks.last()) is None {
                prev.push(unmatched_category_message(names[i]))
            } else {
                prev
            },
            None => prev,
        }
    }
}

/// The first of the names equal to `check` ignoring ASCII case.
fn find_ci(names: &Vec<String>, check: &str) -> (r: Option<usize>)
    ensures
        r is None <==> first_ci_match(string_views(names@), check@) is None,
        r matches Some(n) ==> n < names@.len() && first_ci_match(string_views(names@), check@) == Some(n as int),
{
    let ghost nv = string_views(names@);
    let mut i: usize = 0;
    while i < names.len()
        invariant
            i <= names@.len(),
            nv == string_views(names@),
            forall|j: int| 0 <= j < i ==> !eq_ignore_ascii_case(#[trigger] nv[j], check@),
        decreases names@.len() - i,
    {
        if str_eq_ignore_ascii_case(names[i].as_str(), check) {
            assert(eq_ignore_ascii_case(nv[i as int], check@));
            let ghost k = first_ci_match(nv, check@)->0;
            assert(0 <= k < nv.len() && eq_ignore_ascii_case(nv[k], check@)
                && forall|j: int| 0 <= j < k ==> !eq_ignore_ascii_case(#[trigger] nv[j], check@));
            proof {
                if k < i as int {
                    assert(!eq_ignore_ascii_case(nv[k], check@));
                }
                if k > i as int {
                    assert(!eq_ignore_ascii_case(nv[i as int], check@));
                }
            }
            return Some(i);
        }
        i += 1;
    }
    None
}

fn unknown_check_warning(check: &str, available: &str) -> (w: String)
    ensures
        w@ == "warning: no category named '"@ + check@ + "' found (available: "@ + available@ + ")"@,
{
    let mut w = to_owned_string("warning: no category named '");
    push_str(&mut w, check);
    push_str(&mut w, "' found (available: ");
    push_str(&mut w, available);
    push_str(&mut w, ")");
    w
}

fn unmatched_category_warning(category: &str) -> (w: String)
    ensures
        w@ == unmatched_category_message(category@),
{
    let mut w = to_owned_string("warning: category '");
    push_str(&mut w, category);
    push_str(&mut w, "' has no rules matching the specified files");
    w
}

/// The warnings of the checks against the category names and the names of
/// the categories that kept rules.
#[verifier::spinoff_prover]
#[verifier::rlimit(40)]
fn check_warnings(names: &Vec<String>, matched: &Vec<String>, checks: &[String]) -> (r: Vec<String>)
    ensures
        string_views(r@) == unknown_check_warnings(string_views(names@), string_views(checks@))
            + unmatched_check_warnings(string_views(names@), string_views(matched@), string_views(checks@)),
{
    let ghost cv = string_views(checks@);
    let ghost nv = string_views(names@);
    let ghost mv = string_views(matched@);
    let available = crate::text::join_strings(names.as_slice(), ", ");
    let mut unknown: Vec<String> = Vec::new();
    let mut unmatched: Vec<String> = Vec::new();
    let mut i: usize = 0;
    while i < checks.len()
        invariant
            i <= checks@.len(),
            cv == string_views(checks@),
            nv == string_views(names@),
            mv == string_views(matched@),
            available@ == join(nv, ", "@),
            string_views(unknown@) == unknown_check_warnings(nv, cv.take(i as int)),
            string_views(unmatched@) == unmatched_check_warnings(nv, mv, cv.take(i as int)),
        decreases checks@.len() - i,
    {
        proof {
            assert(cv.take(i + 1).drop_last() =~= cv.take(i as int));
            assert(cv.take(i + 1).last() == checks@[i as int]@);
        }
        let check = checks[i].as_str();
        match find_ci(names, check) {
            None => {
                let w = unknown_check_warning(check, available.as_str());
                let ghost before = string_views(unknown@);
                unknown.push(w);
                assert(string_views(unknown@) =~= before.push(unknown_check_message(check@, nv)));
            },
            Some(n) => {
                if find_ci(matched, check).is_none() {
                    let w = unmatched_category_warning(names[n].as_str());
                    let ghost before = string_views(unmatched@);
                    unmatched.push(w);
                    assert(string_views(unmatched@) =~= before.push(unmatched_category_message(nv[n as int])));
                }
            },
        }
        i += 1;
    }
    assert(cv.take(checks@.len() as int) =~= cv);
    let ghost u1 = string_views(unknown@);
    let ghost u2 = string_views(unmatched@);
    unknown.append(&mut unmatched);
    assert(string_views(unknown@) =~= u1 + u2);
    unknown
}

/// The names of the groups.
fn group_names(groups: &Vec<(String, Vec<ResolvedRule>)>) -> (r: Vec<String>)
    ensures
        string_views(r@) == groups@.map_values(|e: (String, Vec<ResolvedRule>)| e.0@),
{
    let mut out: Vec<String> = Vec::new();
    let mut k: usize = 0;
    while k < groups.len()
        invariant
            k <= groups@.len(),
            string_views(out@) == groups@.take(k as int).map_values(|e: (String, Vec<ResolvedRule>)| e.0@),
        decreases groups@.len() - k,
    {
        let ghost before = string_views(out@);
        out.push(groups[k].0.clone());
        proof {
            assert(string_views(out@) =~= before.push(groups@[k as int].0@));
            assert(groups@.take(k + 1).map_values(|e: (String, Vec<ResolvedRule>)| e.0@)
                =~= groups@.take(k as int).map_values(|e: (String, Vec<ResolvedRule>)| e.0@).push(groups@[k as int].0@));
        }
        k += 1;
    }
    assert(groups@.take(groups@.len() as int) =~= groups@);
    out
}

impl RulesConfig {
    /// The warnings a selection of categories gives: each check that names
    /// no category (listing the categories there are), then each check whose
    /// category has no rule for the files.
    pub fn category_warnings(&self, checks: &[String], files: &[String]) -> (r: Vec<String>)
        ensures
            string_views(r@) == unknown_check_warnings(self.categories@.map_values(|c: CategoryView| c.0), string_views(checks@))
                + unmatched_check_warnings(
                    self.categories@.map_values(|c: CategoryView| c.0),
                    filtered_spec(self.categories@, string_views(checks@), string_views(files@)).map_values(|g: GroupView| g.0),
                    string_views(checks@),
                ),
    {
        let names = self.categories.keys();
        assert(string_views(names@) =~= self.categories@.map_values(|c: CategoryView| c.0));
        let filtered = self.filter_rules(checks, files);
        let matched = group_names(&filtered);
        let ghost fs = filtered_spec(self.categories@, string_views(checks@), string_views(files@));
        assert(string_views(matched@) =~= fs.map_values(|g: GroupView| g.0));
        check_warnings(&names, &matched, checks)
    }
}

/// Capitalize the first letter of a string.
pub fn capitalize(s: &str) -> (r: String)
    ensures
        r@ == capitalized(s@),
{
    capitalize_text(s)
}


// ---------------------------------------------------------------------------
// Laws of the rule ordering
// ---------------------------------------------------------------------------

/// The order used by a sort (`by_name`: name alone; else category, then name).
pub open spec fn before(a: ResolvedView, b: ResolvedView, by_name: bool) -> bool {
    if by_name { name_before(a, b) } else { key_before(a, b) }
}

/// No element is preceded, in the sort's order, by one after it.
pub open spec fn sorted_by(s: Seq<ResolvedView>, by_name: bool) -> bool {
    forall|i: int, j: int| 0 <= i < j < s.len() ==> !before(#[trigger] s[j], #[trigger] s[i], by_name)
}

/// The sort order is asymmetric and transitive.
proof fn lemma_before_order(a: ResolvedView, b: ResolvedView, c: ResolvedView, by_name: bool)
    ensures
        before(a, b, by_name) ==> !before(b, a, by_name),
        before(a, b, by_name) && before(b, c, by_name) ==> before(a, c, by_name),
{
    crate::text::lemma_lex_order_antisym(a.0, b.0);
    crate::text::lemma_lex_order_antisym(b.0, c.0);
    crate::text::lemma_lex_order_antisym(a.0, c.0);
    crate::text::lemma_lex_order_antisym(a.1, b.1);
    crate::text::lemma_lex_order_antisym(b.1, c.1);
    crate::text::lemma_lex_order_antisym(a.1, c.1);
    if lex_order(a.0, b.0) <= 0 && lex_order(b.0, c.0) <= 0 {
        crate::text::lemma_lex_order_trans(a.0, b.0, c.0);
    }
    if lex_order(b.0, c.0) <= 0 && lex_order(c.0, a.0) <= 0 {
        crate::text::lemma_lex_order_trans(b.0, c.0, a.0);
    }
    if lex_order(c.0, a.0) <= 0 && lex_order(a.0, b.0) <= 0 {
        crate::text::lemma_lex_order_trans(c.0, a.0, b.0);
    }
    if lex_order(a.1, b.1) <= 0 && lex_order(b.1, c.1) <= 0 {
        crate::text::lemma_lex_order_trans(a.1, b.1, c.1);
    }
    if lex_order(b.1, c.1) <= 0 && lex_order(c.1, a.1) <= 0 {
        crate::text::lemma_lex_order_trans(b.1, c.1, a.1);
    }
    if lex_order(c.1, a.1) <= 0 && lex_order(a.1, b.1) <= 0 {
        crate::text::lemma_lex_order_trans(c.1, a.1, b.1);
    }
}

/// Inserting keeps the elements: those of `s` and `e`.
proof fn lemma_insert_sorted_multiset(s: Seq<ResolvedView>, e: ResolvedView, by_name: bool)
    ensures
        insert_sorted(s, e, by_name).to_multiset() == s.to_multiset().insert(e),
        insert_sorted(s, e, by_name).len() == s.len() + 1,
    decreases s.len(),
{
    broadcast use vstd::seq_lib::group_to_multiset_ensures;
    if s.len() == 0 {
        assert(seq![e] =~= Seq::<ResolvedView>::empty().push(e));
    } else if before(e, s[0], by_name) {
        assert(seq![e] + s =~= seq![e].add(s));
        vstd::seq_lib::lemma_multiset_commutative(seq![e], s);
        assert(seq![e] =~= Seq::<ResolvedView>::empty().push(e));
    } else {
        let t = s.drop_first();
        lemma_insert_sorted_multiset(t, e, by_name);
        vstd::seq_lib::lemma_multiset_commutative(seq![s[0]], insert_sorted(t, e, by_name));
        vstd::seq_lib::lemma_multiset_commutative(seq![s[0]], t);
        assert(seq![s[0]] + t =~= s);
        assert(seq![s[0]] =~= Seq::<ResolvedView>::empty().push(s[0]));
    }
}

/// Inserting into a sorted sequence keeps it sorted.
proof fn lemma_insert_sorted_sorted(s: Seq<ResolvedView>, e: ResolvedView, by_name: bool)
    requires
        sorted_by(s, by_name),
    ensures
        sorted_by(insert_sorted(s, e, by_name), by_name),
    decreases s.len(),
{
    broadcast use vstd::seq_lib::group_to_multiset_ensures;
    let r = insert_sorted(s, e, by_name);
    if s.len() == 0 {
    } else if before(e, s[0], by_name) {
        assert forall|i: int, j: int| 0 <= i < j < r.len() implies !before(#[trigger] r[j], #[trigger] r[i], by_name) by {
            if i == 0 {
                lemma_before_order(r[j], e, s[0], by_name);
                if j > 1 {
                    assert(!before(s[j - 1], s[0], by_name));
                }
                lemma_before_order(e, s[0], e, by_name);
            } else {
                assert(r[j] == s[j - 1] && r[i] == s[i - 1]);
            }
        }
    } else {
        let t = s.drop_first();
        assert(sorted_by(t, by_name)) by {
            assert forall|i: int, j: int| 0 <= i < j < t.len() implies !before(#[trigger] t[j], #[trigger] t[i], by_name) by {
                assert(t[j] == s[j + 1] && t[i] == s[i + 1]);
            }
        }
        lemma_insert_sorted_sorted(t, e, by_name);
        lemma_insert_sorted_multiset(t, e, by_name);
        let u = insert_sorted(t, e, by_name);
        assert(r =~= seq![s[0]] + u);
        assert forall|i: int, j: int| 0 <= i < j < r.len() implies !before(#[trigger] r[j], #[trigger] r[i], by_name) by {
            if i == 0 {
                let x = u[j - 1];
                assert(u.to_multiset().count(x) > 0);
                assert(t.to_multiset().insert(e).count(x) > 0);
                if x != e {
                    assert(t.to_multiset().count(x) > 0);
                    assert(t.contains(x));
                    let k = choose|k: int| 0 <= k < t.len() && t[k] == x;
                    assert(s[k + 1] == x);
                }
            } else {
                assert(r[j] == u[j - 1] && r[i] == u[i - 1]);
            }
        }
    }
}

/// A sort yields its input's elements, sorted: the result is ordered and is
/// a permutation of the input.
pub proof fn lemma_sort_resolved(s: Seq<ResolvedView>, by_name: bool)
    ensures
        sorted_by(sort_resolved(s, by_name), by_name),
        sort_resolved(s, by_name).to_multiset() == s.to_multiset(),
    decreases s.len(),
{
    broadcast use vstd::seq_lib::group_to_multiset_ensures;
    if s.len() > 0 {
        lemma_sort_resolved(s.drop_last(), by_name);
        lemma_insert_sorted_sorted(sort_resolved(s.drop_last(), by_name), s.last(), by_name);
        lemma_insert_sorted_multiset(sort_resolved(s.drop_last(), by_name), s.last(), by_name);
        assert(s.drop_last().push(s.last()) =~= s);
    }
}


/// Two rules the sort does not tell apart: the same name and, unless the
/// sort is by name alone, the same category.
pub open spec fn sort_equiv(a: ResolvedView, b: ResolvedView, by_name: bool) -> bool {
    if by_name { a.1 == b.1 } else { a.0 == b.0 && a.1 == b.1 }
}

/// The rules of `s` that the sort does not tell apart from `x`, in order.
pub open spec fn equiv_class(s: Seq<ResolvedView>, x: ResolvedView, by_name: bool) -> Seq<ResolvedView>
    decreases s.len(),
{
    if s.len() == 0 {
        seq![]
    } else {
        let prev = equiv_class(s.drop_last(), x, by_name);
        if sort_equiv(s.last(), x, by_name) { prev.push(s.last()) } else { prev }
    }
}

/// Taking a class distributes over concatenation.
proof fn lemma_equiv_class_concat(a: Seq<ResolvedView>, b: Seq<ResolvedView>, x: ResolvedView, by_name: bool)
    ensures
        equiv_class(a + b, x, by_name) == equiv_class(a, x, by_name) + equiv_class(b, x, by_name),
    decreases b.len(),
{
    if b.len() == 0 {
        assert(a + b =~= a);
        assert(equiv_class(a, x, by_name) + equiv_class(b, x, by_name) =~= equiv_class(a, x, by_name));
    } else {
        lemma_equiv_class_concat(a, b.drop_last(), x, by_name);
        assert((a + b).drop_last() =~= a + b.drop_last());
        assert((a + b).last() == b.last());
        if sort_equiv(b.last(), x, by_name) {
            assert(equiv_class(a, x, by_name) + equiv_class(b, x, by_name)
                =~= (equiv_class(a, x, by_name) + equiv_class(b.drop_last(), x, by_name)).push(b.last()));
        }
    }
}

/// The class of one rule.
proof fn lemma_equiv_class_single(e: ResolvedView, x: ResolvedView, by_name: bool)
    ensures
        equiv_class(seq![e], x, by_name) == if sort_equiv(e, x, by_name) { seq![e] } else { Seq::<ResolvedView>::empty() },
{
    let s = seq![e];
    assert(s.drop_last() =~= Seq::<ResolvedView>::empty());
    assert(equiv_class(s.drop_last(), x, by_name) == Seq::<ResolvedView>::empty());
    assert(s.last() == e);
    assert(Seq::<ResolvedView>::empty().push(e) =~= seq![e]);
}

/// Rules the sort does not tell apart compare alike, and two rules of which
/// neither precedes the other are not told apart.
proof fn lemma_equiv_order(a: ResolvedView, b: ResolvedView, c: ResolvedView, by_name: bool)
    ensures
        sort_equiv(a, b, by_name) ==> (before(a, c, by_name) == before(b, c, by_name)
            && before(c, a, by_name) == before(c, b, by_name)),
        !before(a, b, by_name) && !before(b, a, by_name) ==> sort_equiv(a, b, by_name),
        sort_equiv(a, a, by_name),
        sort_equiv(a, b, by_name) ==> sort_equiv(b, a, by_name),
        sort_equiv(a, b, by_name) && sort_equiv(b, c, by_name) ==> sort_equiv(a, c, by_name),
{
    crate::text::lemma_lex_order_antisym(a.0, b.0);
    crate::text::lemma_lex_order_antisym(a.1, b.1);
}

/// Inserting into a sorted sequence puts the new rule after every rule the
/// sort does not tell apart from it.
proof fn lemma_insert_sorted_class(s: Seq<ResolvedView>, e: ResolvedView, x: ResolvedView, by_name: bool)
    requires
        sorted_by(s, by_name),
    ensures
        equiv_class(insert_sorted(s, e, by_name), x, by_name)
            == if sort_equiv(e, x, by_name) { equiv_class(s, x, by_name).push(e) } else { equiv_class(s, x, by_name) },
    decreases s.len(),
{
    lemma_equiv_class_single(e, x, by_name);
    if s.len() == 0 {
        assert(Seq::<ResolvedView>::empty().push(e) =~= seq![e]);
    } else if before(e, s[0], by_name) {
        lemma_equiv_class_concat(seq![e], s, x, by_name);
        if sort_equiv(e, x, by_name) {
            assert(equiv_class(s, x, by_name).len() == 0) by {
                lemma_no_class_before_first(s, e, x, by_name);
            }
            assert(equiv_class(s, x, by_name) =~= Seq::<ResolvedView>::empty());
            assert(seq![e] + Seq::<ResolvedView>::empty() =~= Seq::<ResolvedView>::empty().push(e));
        } else {
            assert(Seq::<ResolvedView>::empty() + equiv_class(s, x, by_name) =~= equiv_class(s, x, by_name));
        }
    } else {
        let t = s.drop_first();
        assert forall|i: int, j: int| 0 <= i < j < t.len() implies !before(#[trigger] t[j], #[trigger] t[i], by_name) by {
            assert(t[j] == s[j + 1] && t[i] == s[i + 1]);
        }
        lemma_insert_sorted_class(t, e, x, by_name);
        assert(s =~= seq![s[0]] + t);
        lemma_equiv_class_concat(seq![s[0]], t, x, by_name);
        lemma_equiv_class_concat(seq![s[0]], insert_sorted(t, e, by_name), x, by_name);
        if sort_equiv(e, x, by_name) {
            assert(equiv_class(seq![s[0]], x, by_name) + equiv_class(t, x, by_name).push(e)
                =~= (equiv_class(seq![s[0]], x, by_name) + equiv_class(t, x, by_name)).push(e));
        }
    }
}

/// A rule that precedes the first of a sorted sequence is told apart from
/// all of them, and so is any rule like it.
proof fn lemma_no_class_before_first(s: Seq<ResolvedView>, e: ResolvedView, x: ResolvedView, by_name: bool)
    requires
        sorted_by(s, by_name),
        s.len() > 0,
        before(e, s[0], by_name),
        sort_equiv(e, x, by_name),
    ensures
        equiv_class(s, x, by_name).len() == 0,
    decreases s.len(),
{
    let last = s.last();
    let p = s.drop_last();
    lemma_before_order(s[0], s[0], s[0], by_name);
    lemma_equiv_order(e, x, last, by_name);
    lemma_equiv_order(last, x, e, by_name);
    lemma_equiv_order(last, e, s[0], by_name);
    if s.len() > 1 {
        assert(!before(s[s.len() - 1], s[0], by_name));
    }
    assert(!sort_equiv(last, x, by_name));
    assert(equiv_class(s, x, by_name) == equiv_class(p, x, by_name));
    if p.len() > 0 {
        assert forall|i: int, j: int| 0 <= i < j < p.len() implies !before(#[trigger] p[j], #[trigger] p[i], by_name) by {
            assert(p[j] == s[j] && p[i] == s[i]);
        }
        assert(p[0] == s[0]);
        lemma_no_class_before_first(p, e, x, by_name);
    } else {
        assert(equiv_class(p, x, by_name) == Seq::<ResolvedView>::empty());
    }
}

/// Sorting keeps each class in order.
proof fn lemma_sort_keeps_classes(s: Seq<ResolvedView>, x: ResolvedView, by_name: bool)
    ensures
        equiv_class(sort_resolved(s, by_name), x, by_name) == equiv_class(s, x, by_name),
    decreases s.len(),
{
    if s.len() > 0 {
        lemma_sort_keeps_classes(s.drop_last(), x, by_name);
        lemma_sort_resolved(s.drop_last(), by_name);
        lemma_insert_sorted_class(sort_resolved(s.drop_last(), by_name), s.last(), x, by_name);
    }
}

/// The first rule of a sequence heads its own class.
proof fn lemma_class_of_first(s: Seq<ResolvedView>, x: ResolvedView, by_name: bool)
    requires
        s.len() > 0,
    ensures
        sort_equiv(s[0], x, by_name) ==> equiv_class(s, x, by_name) == seq![s[0]] + equiv_class(s.drop_first(), x, by_name),
        !sort_equiv(s[0], x, by_name) ==> equiv_class(s, x, by_name) == equiv_class(s.drop_first(), x, by_name),
{
    assert(s =~= seq![s[0]] + s.drop_first());
    lemma_equiv_class_concat(seq![s[0]], s.drop_first(), x, by_name);
    lemma_equiv_class_single(s[0], x, by_name);
    assert(Seq::<ResolvedView>::empty() + equiv_class(s.drop_first(), x, by_name) =~= equiv_class(s.drop_first(), x, by_name));
}

/// A rule in the class of `x` within `s` occurs in `s`, like `x`.
proof fn lemma_class_members(s: Seq<ResolvedView>, x: ResolvedView, by_name: bool, k: int)
    requires
        0 <= k < equiv_class(s, x, by_name).len(),
    ensures
        exists|i: int| 0 <= i < s.len() && s[i] == equiv_class(s, x, by_name)[k],
        sort_equiv(equiv_class(s, x, by_name)[k], x, by_name),
    decreases s.len(),
{
    let prev = equiv_class(s.drop_last(), x, by_name);
    if k < prev.len() {
        lemma_class_members(s.drop_last(), x, by_name, k);
        let i = choose|i: int| 0 <= i < s.drop_last().len() && s.drop_last()[i] == prev[k];
        assert(s[i] == s.drop_last()[i]);
    } else {
        assert(s[s.len() - 1] == equiv_class(s, x, by_name)[k]);
    }
}

/// Two sequences sorted by category and name whose classes agree are equal.
proof fn lemma_sorted_by_classes(a: Seq<ResolvedView>, b: Seq<ResolvedView>)
    requires
        sorted_by(a, false),
        sorted_by(b, false),
        forall|x: ResolvedView| #[trigger] equiv_class(a, x, false) == equiv_class(b, x, false),
    ensures
        a == b,
    decreases a.len() + b.len(),
{
    if a.len() == 0 || b.len() == 0 {
        if a.len() > 0 {
            lemma_class_of_first(a, a[0], false);
            lemma_equiv_order(a[0], a[0], a[0], false);
            assert(equiv_class(b, a[0], false) == equiv_class(a, a[0], false));
            assert(b =~= Seq::<ResolvedView>::empty());
        }
        if b.len() > 0 {
            lemma_class_of_first(b, b[0], false);
            lemma_equiv_order(b[0], b[0], b[0], false);
            assert(equiv_class(a, b[0], false) == equiv_class(b, b[0], false));
            assert(a =~= Seq::<ResolvedView>::empty());
        }
        assert(a =~= b);
    } else {
        let x = a[0];
        let y = b[0];
        lemma_equiv_order(x, x, x, false);
        lemma_equiv_order(y, y, y, false);
        lemma_class_of_first(a, x, false);
        lemma_class_of_first(b, y, false);
        // Some rule of `b` is like `x`, and some rule of `a` like `y`.
        assert(equiv_class(b, x, false) == equiv_class(a, x, false));
        assert(equiv_class(a, y, false) == equiv_class(b, y, false));
        lemma_class_members(b, x, false, 0);
        lemma_class_members(a, y, false, 0);
        let j = choose|j: int| 0 <= j < b.len() && b[j] == equiv_class(b, x, false)[0];
        let i = choose|i: int| 0 <= i < a.len() && a[i] == equiv_class(a, y, false)[0];
        if j > 0 {
            assert(!before(b[j], b[0], false));
        }
        if i > 0 {
            assert(!before(a[i], a[0], false));
        }
        lemma_before_order(x, x, x, false);
        lemma_before_order(y, y, y, false);
        lemma_equiv_order(b[j], x, y, false);
        lemma_equiv_order(a[i], y, x, false);
        lemma_equiv_order(x, y, x, false);
        assert(sort_equiv(x, y, false));
        // So `x` and `y` head the same class in both.
        lemma_class_of_first(a, y, false);
        lemma_class_of_first(b, x, false);
        lemma_equiv_order(y, x, y, false);
        assert(equiv_class(a, y, false)[0] == x);
        assert(equiv_class(b, y, false)[0] == y);
        assert(x == y);
        let a1 = a.drop_first();
        let b1 = b.drop_first();
        assert forall|i: int, j: int| 0 <= i < j < a1.len() implies !before(#[trigger] a1[j], #[trigger] a1[i], false) by {
            assert(a1[j] == a[j + 1] && a1[i] == a[i + 1]);
        }
        assert forall|i: int, j: int| 0 <= i < j < b1.len() implies !before(#[trigger] b1[j], #[trigger] b1[i], false) by {
            assert(b1[j] == b[j + 1] && b1[i] == b[i + 1]);
        }
        assert forall|z: ResolvedView| #[trigger] equiv_class(a1, z, false) == equiv_class(b1, z, false) by {
            lemma_class_of_first(a, z, false);
            lemma_class_of_first(b, z, false);
            assert(equiv_class(a, z, false) == equiv_class(b, z, false));
            if sort_equiv(x, z, false) {
                assert(equiv_class(a1, z, false) =~= equiv_class(a, z, false).drop_first());
                assert(equiv_class(b1, z, false) =~= equiv_class(b, z, false).drop_first());
            }
        }
        lemma_sorted_by_classes(a1, b1);
        assert(a =~= seq![x] + a1);
        assert(b =~= seq![y] + b1);
    }
}

/// No two groups have the same name.
pub open spec fn distinct_group_names(groups: Seq<GroupView>) -> bool {
    forall|i: int, j: int| 0 <= i < j < groups.len() ==> #[trigger] groups[i].0 != #[trigger] groups[j].0
}

/// Each group, with its rules ordered by name.
pub open spec fn groups_sorted_by_name(groups: Seq<GroupView>) -> Seq<GroupView> {
    groups.map_values(|g: GroupView| (g.0, sort_resolved(g.1, true)))
}

/// With distinct names, grouping by category keeps the groups in order and
/// orders each one by name.
proof fn lemma_by_category_distinct(groups: Seq<GroupView>)
    requires
        distinct_group_names(groups),
    ensures
        by_category_spec(groups) == groups_sorted_by_name(groups),
    decreases groups.len(),
{
    if groups.len() > 0 {
        let p = groups.drop_last();
        assert forall|i: int, j: int| 0 <= i < j < p.len() implies #[trigger] p[i].0 != #[trigger] p[j].0 by {
            assert(p[i] == groups[i] && p[j] == groups[j]);
        }
        lemma_by_category_distinct(p);
        let m = groups_sorted_by_name(p);
        let name = groups.last().0;
        lemma_find_name(m, name);
        if find_name(m, name) is Some {
            let i = find_name(m, name)->0;
            assert(m[i].0 == p[i].0);
            assert(groups[i].0 != groups[groups.len() - 1].0);
        }
        assert(by_category_spec(groups) =~= groups_sorted_by_name(groups));
    }
}

/// The rules a category resolves to are of that category.
proof fn lemma_resolve_category_of(category: Seq<char>, rules: Seq<RuleView>, files: Seq<Seq<char>>)
    ensures
        forall|k: int| 0 <= k < resolve_category(category, rules, files).len()
            ==> (#[trigger] resolve_category(category, rules, files)[k]).0 == category,
    decreases rules.len(),
{
    if rules.len() > 0 {
        lemma_resolve_category_of(category, rules.drop_last(), files);
        let prev = resolve_category(category, rules.drop_last(), files);
        let r = resolve_category(category, rules, files);
        assert forall|k: int| 0 <= k < r.len() implies (#[trigger] r[k]).0 == category by {
            if k < prev.len() {
                assert(r[k] == prev[k]);
            }
        }
    }
}

/// The groups of `filtered_spec` each come from a category: its name and
/// the rules it resolves to.
proof fn lemma_filtered_groups(cats: Seq<CategoryView>, checks: Seq<Seq<char>>, files: Seq<Seq<char>>)
    requires
        distinct_names(cats),
    ensures
        distinct_group_names(filtered_spec(cats, checks, files)),
        forall|k: int| 0 <= k < filtered_spec(cats, checks, files).len() ==> exists|i: int| 0 <= i < cats.len()
            && #[trigger] filtered_spec(cats, checks, files)[k] == (cats[i].0, resolve_category(cats[i].0, cats[i].1, files)),
    decreases cats.len(),
{
    if cats.len() > 0 {
        let p = cats.drop_last();
        assert forall|i: int, j: int| 0 <= i < j < p.len() implies #[trigger] p[i].0 != #[trigger] p[j].0 by {
            assert(p[i] == cats[i] && p[j] == cats[j]);
        }
        lemma_filtered_groups(p, checks, files);
        let prev = filtered_spec(p, checks, files);
        let f = filtered_spec(cats, checks, files);
        let c = cats.last();
        assert forall|k: int| 0 <= k < prev.len() implies exists|i: int| 0 <= i < cats.len()
            && #[trigger] prev[k] == (cats[i].0, resolve_category(cats[i].0, cats[i].1, files)) by {
            let i = choose|i: int| 0 <= i < p.len() && prev[k] == (p[i].0, resolve_category(p[i].0, p[i].1, files));
            assert(cats[i] == p[i]);
        }
        if f.len() > prev.len() {
            assert(f == prev.push((c.0, resolve_category(c.0, c.1, files))));
            assert forall|k: int| 0 <= k < prev.len() implies (#[trigger] prev[k]).0 != c.0 by {
                let i = choose|i: int| 0 <= i < p.len() && prev[k] == (p[i].0, resolve_category(p[i].0, p[i].1, files));
                assert(cats[i] == p[i]);
            }
            assert forall|k: int| 0 <= k < f.len() implies exists|i: int| 0 <= i < cats.len()
                && #[trigger] f[k] == (cats[i].0, resolve_category(cats[i].0, cats[i].1, files)) by {
                if k == prev.len() {
                    assert(f[k] == (cats[cats.len() - 1].0, resolve_category(cats[cats.len() - 1].0, cats[cats.len() - 1].1, files)));
                } else {
                    assert(f[k] == prev[k]);
                }
            }
            assert forall|i: int, j: int| 0 <= i < j < f.len() implies #[trigger] f[i].0 != #[trigger] f[j].0 by {
                if j == prev.len() {
                    assert(f[i] == prev[i]);
                } else {
                    assert(f[i] == prev[i] && f[j] == prev[j]);
                }
            }
        } else {
            assert(f == prev);
        }
    }
}

/// Every rule of the sequence is of the category.
pub open spec fn all_of_category(s: Seq<ResolvedView>, category: Seq<char>) -> bool {
    forall|i: int| 0 <= i < s.len() ==> (#[trigger] s[i]).0 == category
}

/// Among rules of one category, the classes by category and name are those
/// by name, for that category, and empty for the others.
proof fn lemma_class_in_category(s: Seq<ResolvedView>, category: Seq<char>, x: ResolvedView)
    requires
        all_of_category(s, category),
    ensures
        equiv_class(s, x, false) == if x.0 == category { equiv_class(s, x, true) } else { Seq::<ResolvedView>::empty() },
    decreases s.len(),
{
    if s.len() > 0 {
        let p = s.drop_last();
        assert forall|i: int| 0 <= i < p.len() implies (#[trigger] p[i]).0 == category by {
            assert(p[i] == s[i]);
        }
        lemma_class_in_category(p, category, x);
        assert(s[s.len() - 1].0 == category);
    }
}

/// Ordering a group's rules by name keeps its classes by category and name.
proof fn lemma_group_classes(s: Seq<ResolvedView>, category: Seq<char>, x: ResolvedView)
    requires
        all_of_category(s, category),
    ensures
        equiv_class(sort_resolved(s, true), x, false) == equiv_class(s, x, false),
{
    broadcast use vstd::seq_lib::group_to_multiset_ensures;
    let t = sort_resolved(s, true);
    lemma_sort_resolved(s, true);
    assert forall|i: int| 0 <= i < t.len() implies (#[trigger] t[i]).0 == category by {
        assert(t.to_multiset().count(t[i]) > 0);
        assert(s.to_multiset().count(t[i]) > 0);
        assert(s.contains(t[i]));
    }
    lemma_class_in_category(s, category, x);
    lemma_class_in_category(t, category, x);
    lemma_sort_keeps_classes(s, x, true);
}

/// Ordering each group by name keeps the classes of the concatenation.
proof fn lemma_concat_group_classes(groups: Seq<GroupView>, x: ResolvedView)
    requires
        forall|k: int| 0 <= k < groups.len() ==> all_of_category(#[trigger] groups[k].1, groups[k].0),
    ensures
        equiv_class(concat_groups(groups_sorted_by_name(groups)), x, false) == equiv_class(concat_groups(groups), x, false),
    decreases groups.len(),
{
    if groups.len() > 0 {
        let p = groups.drop_last();
        let g = groups.last();
        assert forall|k: int| 0 <= k < p.len() implies all_of_category(#[trigger] p[k].1, p[k].0) by {
            assert(p[k] == groups[k]);
        }
        lemma_concat_group_classes(p, x);
        assert(groups_sorted_by_name(groups).drop_last() =~= groups_sorted_by_name(p));
        assert(all_of_category(groups[groups.len() - 1].1, groups[groups.len() - 1].0));
        lemma_group_classes(g.1, g.0, x);
        lemma_equiv_class_concat(concat_groups(groups_sorted_by_name(p)), sort_resolved(g.1, true), x, false);
        lemma_equiv_class_concat(concat_groups(p), g.1, x, false);
    }
}

/// Every group `filtered_spec` keeps has rules.
proof fn lemma_filtered_nonempty(cats: Seq<CategoryView>, checks: Seq<Seq<char>>, files: Seq<Seq<char>>)
    ensures
        forall|k: int| 0 <= k < filtered_spec(cats, checks, files).len()
            ==> (#[trigger] filtered_spec(cats, checks, files)[k]).1.len() > 0,
    decreases cats.len(),
{
    if cats.len() > 0 {
        lemma_filtered_nonempty(cats.drop_last(), checks, files);
        let prev = filtered_spec(cats.drop_last(), checks, files);
        let f = filtered_spec(cats, checks, files);
        assert forall|k: int| 0 <= k < f.len() implies (#[trigger] f[k]).1.len() > 0 by {
            if k < prev.len() {
                assert(f[k] == prev[k]);
            }
        }
    }
}

/// Grouped by category, each group has rules and is ordered by name.
pub proof fn lemma_grouped_sorted_nonempty(cats: Seq<CategoryView>, checks: Seq<Seq<char>>, files: Seq<Seq<char>>)
    requires
        distinct_names(cats),
    ensures
        forall|k: int| 0 <= k < by_category_spec(filtered_spec(cats, checks, files)).len() ==> {
            &&& (#[trigger] by_category_spec(filtered_spec(cats, checks, files))[k]).1.len() > 0
            &&& sorted_by(by_category_spec(filtered_spec(cats, checks, files))[k].1, true)
        },
{
    broadcast use vstd::seq_lib::group_to_multiset_ensures;
    let fs = filtered_spec(cats, checks, files);
    lemma_filtered_groups(cats, checks, files);
    lemma_filtered_nonempty(cats, checks, files);
    lemma_by_category_distinct(fs);
    let g = by_category_spec(fs);
    assert forall|k: int| 0 <= k < g.len() implies {
        &&& (#[trigger] g[k]).1.len() > 0
        &&& sorted_by(g[k].1, true)
    } by {
        assert(g[k] == (fs[k].0, sort_resolved(fs[k].1, true)));
        lemma_sort_resolved(fs[k].1, true);
        assert(sort_resolved(fs[k].1, true).to_multiset().len() == fs[k].1.to_multiset().len());
    }
}

/// Flattening the rules resolved by category gives the rules resolved all
/// together: both are the selected categories' applicable rules, ordered by
/// category, then name, rules alike in both keeping the order of the
/// configuration.
pub proof fn lemma_flatten_matches_resolve(cats: Seq<CategoryView>, checks: Seq<Seq<char>>, files: Seq<Seq<char>>)
    requires
        distinct_names(cats),
    ensures
        sort_resolved(concat_groups(by_category_spec(filtered_spec(cats, checks, files))), false)
            == sort_resolved(concat_groups(filtered_spec(cats, checks, files)), false),
{
    let fs = filtered_spec(cats, checks, files);
    lemma_filtered_groups(cats, checks, files);
    lemma_by_category_distinct(fs);
    assert forall|k: int| 0 <= k < fs.len() implies all_of_category(#[trigger] fs[k].1, fs[k].0) by {
        let c = choose|c: int| 0 <= c < cats.len() && fs[k] == (cats[c].0, resolve_category(cats[c].0, cats[c].1, files));
        lemma_resolve_category_of(cats[c].0, cats[c].1, files);
    }
    let flat = concat_groups(fs);
    let grouped = concat_groups(groups_sorted_by_name(fs));
    lemma_sort_resolved(flat, false);
    lemma_sort_resolved(grouped, false);
    let a = sort_resolved(grouped, false);
    let b = sort_resolved(flat, false);
    assert forall|x: ResolvedView| #[trigger] equiv_class(a, x, false) == equiv_class(b, x, false) by {
        lemma_sort_keeps_classes(grouped, x, false);
        lemma_sort_keeps_classes(flat, x, false);
        lemma_concat_group_classes(fs, x);
    }
    lemma_sorted_by_classes(a, b);
}

/// The message when no rules file was found.
pub open spec fn no_rules_message() -> Seq<char> {
    "no rules.yml found; run 'usx init' to create starter rules, or create .ursix/rules.yml manually"@
}

/// The rules in effect: the global rules, then the project's merged into
/// them; an error when there are neither.
pub fn combine_rules(global: Option<RulesConfig>, project: Option<RulesConfig>) -> (r: Result<RulesConfig, String>)
    ensures
        global is None && project is None ==> (r matches Err(e) && e@ == no_rules_message()),
        !(global is None && project is None) ==> (r matches Ok(c) && c.categories@ == merge_spec(
            match global {
                Some(g) => merge_spec(Seq::empty(), g.categories@),
                None => Seq::empty(),
            },
            match project {
                Some(p) => p.categories@,
                None => Seq::empty(),
            },
        )),
{
    let found_any = global.is_some() || project.is_some();
    if !found_any {
        return Err(to_owned_string(
            "no rules.yml found; run 'usx init' to create starter rules, or create .ursix/rules.yml manually",
        ));
    }
    let mut config = RulesConfig::default();
    assert(config.categories@ =~= Seq::<CategoryView>::empty());
    match global {
        Some(g) => config.merge(g),
        None => {},
    }
    let ghost after_global = config.categories@;
    match project {
        Some(p) => config.merge(p),
        None => {
            proof {
                lemma_merge_empty(after_global);
            }
        },
    }
    Ok(config)
}

/// Merging nothing changes nothing.
pub proof fn lemma_merge_empty(mine: Seq<CategoryView>)
    ensures
        merge_spec(mine, Seq::empty()) == mine,
{
}

/// A valid pattern applies to a list of files exactly when one of them, at
/// whatever position, matches by path or by file name; so it does not depend
/// on the order of the files.
pub proof fn lemma_any_file_matches_membership(pattern: Seq<char>, files: Seq<Seq<char>>, reordered: Seq<Seq<char>>, i: int)
    requires
        reordered.to_multiset() == files.to_multiset(),
    ensures
        glob_compiles(pattern) && 0 <= i < files.len() && file_matches(pattern, files[i])
            ==> any_file_matches(pattern, files),
        (forall|j: int| 0 <= j < files.len() ==> !file_matches(pattern, #[trigger] files[j]))
            ==> !any_file_matches(pattern, files),
        any_file_matches(pattern, files) == any_file_matches(pattern, reordered),
{
    broadcast use vstd::seq_lib::group_to_multiset_ensures;
    if any_file_matches(pattern, files) {
        let k = choose|k: int| 0 <= k < files.len() && file_matches(pattern, #[trigger] files[k]);
        assert(files.contains(files[k]));
        assert(reordered.to_multiset().count(files[k]) > 0);
        assert(reordered.contains(files[k]));
        let m = choose|m: int| 0 <= m < reordered.len() && reordered[m] == files[k];
        assert(file_matches(pattern, reordered[m]));
    }
    if any_file_matches(pattern, reordered) {
        let k = choose|k: int| 0 <= k < reordered.len() && file_matches(pattern, #[trigger] reordered[k]);
        assert(reordered.contains(reordered[k]));
        assert(files.to_multiset().count(reordered[k]) > 0);
        assert(files.contains(reordered[k]));
        let m = choose|m: int| 0 <= m < files.len() && files[m] == reordered[k];
        assert(file_matches(pattern, files[m]));
    }
}

/// A rule with a valid pattern applies to a review of files when some file
/// matches it, and only then (a review without files takes every rule).
pub proof fn lemma_rule_applies_to_matching_file(rule: RuleView, files: Seq<Seq<char>>, i: int)
    requires
        rule.3 matches Some(p) && glob_compiles(p),
        files.len() > 0,
    ensures
        0 <= i < files.len() && file_matches(rule.3->0, files[i]) ==> rule_applies(rule, files),
        (forall|j: int| 0 <= j < files.len() ==> !file_matches(rule.3->0, #[trigger] files[j])) ==> !rule_applies(rule, files),
{
}

} // verus!
