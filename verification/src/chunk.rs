//! Splitting input for parallel processing: one chunk for the whole input,
//! or, for a unified diff, one chunk per file.

use vstd::prelude::*;
use crate::config::TokenizerMode;
use crate::context::InputContext;
use crate::text::{
    all_ws, chars_of, is_blank, lines, push_chars, push_str, split_lines, split_words, starts_with,
    starts_with_str, string_from_chars, views, words, copy_range, eq_str,
};
use crate::tokens::{count_tokens, heuristic_tokens, TokenCount, TokenLimits};

verus! {

/// A chunk of input for processing.
#[derive(Debug, Clone)]
pub struct Chunk {
    /// Identifier of the chunk
    pub id: String,
    /// Its input
    pub context: InputContext,
    /// Its token count
    pub token_count: TokenCount,
}

/// Options for chunked processing.
#[derive(Debug, Clone)]
pub struct ChunkOptions {
    /// At most this many chunks are processed at once
    pub max_concurrency: usize,
    /// Token limits per chunk
    pub token_limits: TokenLimits,
}

impl Default for ChunkOptions {
    fn default() -> (r: Self)
        ensures
            r.max_concurrency == 4,
            r.token_limits.warn_threshold == 8000,
            r.token_limits.error_threshold == 16000,
    {
        ChunkOptions { max_concurrency: 4, token_limits: TokenLimits::default() }
    }
}

/// The single chunk for a whole input, with its token count (`tokenizer`
/// as for `count_tokens`).
pub fn create_chunk(context: &InputContext, mode: TokenizerMode, tokenizer: Result<&tokenizers::Tokenizer, String>) -> (r: Result<Chunk, String>)
    ensures
        r matches Ok(c) ==> c.id@ == "input-0"@ && c.context@ == context@,
        mode == TokenizerMode::Heuristic ==> (r matches Ok(c) && c.token_count.count == heuristic_tokens(context@.len())),
        mode == TokenizerMode::Full ==> (tokenizer matches Err(e) ==> (r matches Err(m) && m@ == "failed to load tokenizer: "@ + e@)),
        mode == TokenizerMode::Full && tokenizer is Ok ==> (r matches Err(m) ==> exists|e: Seq<char>| m@ == "tokenization failed: "@ + e),
{
    let token_count = count_tokens(context.content(), mode, tokenizer)?;
    Ok(Chunk { id: "input-0".to_string(), context: context.clone_context(), token_count })
}

impl InputContext {
    /// A clone that shares the text.
    pub fn clone_context(&self) -> (r: InputContext)
        ensures
            r@ == self@,
    {
        InputContext::new(self.content())
    }
}

/// The changes of one file in a unified diff.
#[derive(Debug, Clone)]
pub struct DiffChunk {
    /// Path of the file, from its `diff --git` header (the `b/` side)
    pub file_path: String,
    /// The file's part of the diff, header included
    pub content: String,
}

/// The path a `diff --git` header names: its last word without the `b/`
/// prefix, for a header of at least four words.
pub open spec fn header_path(line: Seq<char>) -> Option<Seq<char>> {
    if !starts_with(line, "diff --git "@) {
        None
    } else {
        let ws = words(line);
        if ws.len() >= 4 && starts_with(ws.last(), "b/"@) {
            Some(ws.last().skip(2))
        } else {
            None
        }
    }
}

/// The file path named by a `diff --git` header line.
pub fn extract_file_path_from_diff_header(line: &str) -> (r: Option<String>)
    ensures
        match header_path(line@) {
            Some(p) => r matches Some(s) && s@ == p,
            None => r is None,
        },
{
    let v = chars_of(line);
    if !starts_with_str(&v, "diff --git ") {
        return None;
    }
    let parts = split_words(line);
    if parts.len() >= 4 {
        let last = &parts[parts.len() - 1];
        if starts_with_str(last, "b/") {
            proof {
                reveal_strlit("b/");
            }
            let rest = copy_range(last, 2, last.len());
            assert(rest@ =~= last@.skip(2));
            return Some(string_from_chars(&rest));
        }
    }
    None
}

/// State of splitting a diff: chunks so far, the current file, its text.
pub type SplitState = (Seq<(Seq<char>, Seq<char>)>, Option<Seq<char>>, Seq<char>);

/// One line of the split: a header closes the current file (kept when its
/// text is not blank; a blank text is carried on) and opens the file it
/// names; lines of an open file are collected.
pub open spec fn split_step(st: SplitState, line: Seq<char>) -> SplitState {
    let (chunks, cur, text) = st;
    let (chunks2, cur2, text2) = if starts_with(line, "diff --git "@) {
        let (c, t) = match cur {
            Some(f) => if !is_blank(text) { (chunks.push((f, text)), seq![]) } else { (chunks, text) },
            None => (chunks, text),
        };
        (c, header_path(line), t)
    } else {
        (chunks, cur, text)
    };
    if cur2 is Some { (chunks2, cur2, text2 + line + "\n"@) } else { (chunks2, cur2, text2) }
}

/// The state after the first `k` lines.
pub open spec fn split_lines_state(ls: Seq<Seq<char>>, k: int) -> SplitState
    decreases k,
{
    if k <= 0 {
        (seq![], None, seq![])
    } else {
        split_step(split_lines_state(ls, k - 1), ls[k - 1])
    }
}

/// The per-file chunks of a diff, in order: path and text.
pub open spec fn diff_chunks(diff: Seq<char>) -> Seq<(Seq<char>, Seq<char>)> {
    let ls = lines(diff);
    let (chunks, cur, text) = split_lines_state(ls, ls.len() as int);
    match cur {
        Some(f) => if !is_blank(text) { chunks.push((f, text)) } else { chunks },
        None => chunks,
    }
}

/// The chunks as plain values.
pub open spec fn diff_chunk_views(v: Seq<DiffChunk>) -> Seq<(Seq<char>, Seq<char>)> {
    v.map_values(|c: DiffChunk| (c.file_path@, c.content@))
}

/// Split a unified diff into per-file chunks; text before the first file
/// header, and files whose text is blank, give no chunk.
pub fn chunk_diff_by_file(diff_content: &str) -> (r: Vec<DiffChunk>)
    ensures
        diff_chunk_views(r@) == diff_chunks(diff_content@),
{
    let dv = chars_of(diff_content);
    let ls = split_lines(&dv);
    let ghost lv = views(ls@);
    let mut chunks: Vec<DiffChunk> = Vec::new();
    let mut current_file: Option<String> = None;
    let mut current_content = String::new();
    let mut i: usize = 0;
    while i < ls.len()
        invariant
            i <= ls@.len(),
            lv == views(ls@),
            lv == lines(diff_content@),
            split_lines_state(lv, i as int) == (diff_chunk_views(chunks@), match current_file {
                Some(f) => Some(f@),
                None => None::<Seq<char>>,
            }, current_content@),
        decreases ls@.len() - i,
    {
        let line = &ls[i];
        let line_str = string_from_chars(line);
        if starts_with_str(line, "diff --git ") {
            let taken = current_file;
            current_file = None;
            if let Some(file_path) = taken {
                let cc = chars_of(current_content.as_str());
                if !all_ws(&cc) {
                    let ghost before = chunks@;
                    let content = current_content;
                    current_content = String::new();
                    chunks.push(DiffChunk { file_path, content });
                    assert(diff_chunk_views(chunks@) =~= diff_chunk_views(before).push((file_path@, content@)));
                }
            }
            current_file = extract_file_path_from_diff_header(line_str.as_str());
        }
        if current_file.is_some() {
            push_chars(&mut current_content, line.as_slice());
            push_str(&mut current_content, "\n");
        }
        i += 1;
    }
    if let Some(file_path) = current_file {
        let cc = chars_of(current_content.as_str());
        if !all_ws(&cc) {
            let ghost before = chunks@;
            let content = current_content;
            chunks.push(DiffChunk { file_path, content });
            assert(diff_chunk_views(chunks@) =~= diff_chunk_views(before).push((file_path@, content@)));
        }
    }
    chunks
}

/// Lines, each followed by a line feed.
pub open spec fn with_line_feeds(ls: Seq<Seq<char>>) -> Seq<char>
    decreases ls.len(),
{
    if ls.len() == 0 {
        seq![]
    } else {
        with_line_feeds(ls.drop_last()) + ls.last() + "\n"@
    }
}

/// Lines `i` to `j` (exclusive) of a diff are one file's section: line `i`
/// is the `diff --git` header naming `path`, no other header comes before
/// line `j`, and line `j` is the next header or the end; `text` is those
/// lines, each with its line feed.
pub open spec fn section_at(ls: Seq<Seq<char>>, path: Seq<char>, text: Seq<char>, i: int, j: int) -> bool {
    &&& 0 <= i < j <= ls.len()
    &&& header_path(ls[i]) == Some(path)
    &&& text == with_line_feeds(ls.subrange(i, j))
    &&& forall|m: int| i < m < j ==> !starts_with(#[trigger] ls[m], "diff --git "@)
    &&& (j == ls.len() || starts_with(ls[j], "diff --git "@))
}

/// Some lines of the diff are this file's section.
pub open spec fn is_section(ls: Seq<Seq<char>>, chunk: (Seq<char>, Seq<char>)) -> bool {
    exists|a: int, b: int| section_at(ls, chunk.0, chunk.1, a, b)
}

/// Each chunk is a file's section.
pub open spec fn all_sections(ls: Seq<Seq<char>>, chunks: Seq<(Seq<char>, Seq<char>)>) -> bool {
    forall|c: int| 0 <= c < chunks.len() ==> is_section(ls, #[trigger] chunks[c])
}

/// The open file's text after `k` lines: from its header on, with line feeds.
pub open spec fn open_at(ls: Seq<Seq<char>>, path: Seq<char>, text: Seq<char>, i: int, k: int) -> bool {
    &&& 0 <= i < k <= ls.len()
    &&& header_path(ls[i]) == Some(path)
    &&& text == with_line_feeds(ls.subrange(i, k))
    &&& forall|m: int| i < m < k ==> !starts_with(#[trigger] ls[m], "diff --git "@)
    &&& !is_blank(text)
}

/// The state after `k` lines: every chunk so far is a file's section, and an
/// open file's text runs from its header to line `k`.
proof fn lemma_split_lines_state(ls: Seq<Seq<char>>, k: int) -> (i: int)
    requires
        0 <= k <= ls.len(),
    ensures
        all_sections(ls, split_lines_state(ls, k).0),
        split_lines_state(ls, k).1 is None ==> split_lines_state(ls, k).2 == Seq::<char>::empty(),
        split_lines_state(ls, k).1 matches Some(f) ==> open_at(ls, f, split_lines_state(ls, k).2, i, k),
    decreases k,
{
    reveal_strlit("diff --git ");
    reveal_strlit("\n");
    if k == 0 {
        0
    } else {
        let i0 = lemma_split_lines_state(ls, k - 1);
        let prev = split_lines_state(ls, k - 1);
        let line = ls[k - 1];
        let (chunks, cur, text) = prev;
        let st = split_lines_state(ls, k);
        assert(st == split_step(prev, line));
        let header = starts_with(line, "diff --git "@);
        assert(ls.subrange(k - 1, k).drop_last() =~= Seq::<Seq<char>>::empty());
        assert(ls.subrange(k - 1, k).last() == line);
        assert(with_line_feeds(Seq::<Seq<char>>::empty()) == Seq::<char>::empty());
        assert(with_line_feeds(ls.subrange(k - 1, k)) =~= line + "\n"@);
        if header {
            assert(line.subrange(0, 11) == "diff --git "@);
            assert(line.subrange(0, 11)[0] == line[0]);
            assert(line[0] == 'd');
            if let Some(f) = cur {
                assert(section_at(ls, f, text, i0, k - 1));
            }
            let t = if cur is Some { Seq::<char>::empty() } else { text };
            assert(t == Seq::<char>::empty());
            if header_path(line) is Some {
                assert(Seq::<char>::empty() + line + "\n"@ =~= line + "\n"@);
                assert((line + "\n"@)[0] == 'd');
                assert(!crate::text::is_ws('d'));
                assert(!is_blank(st.2));
            }
            assert forall|c: int| 0 <= c < st.0.len() implies is_section(ls, #[trigger] st.0[c]) by {
                if c < prev.0.len() {
                    assert(st.0[c] == prev.0[c]);
                    assert(is_section(ls, prev.0[c]));
                    let (a, b) = choose|a: int, b: int| section_at(ls, prev.0[c].0, prev.0[c].1, a, b);
                    assert(section_at(ls, st.0[c].0, st.0[c].1, a, b));
                } else {
                    let f = prev.1->0;
                    assert(st.0[c] == (f, prev.2));
                    assert(section_at(ls, f, prev.2, i0, k - 1));
                    assert(section_at(ls, st.0[c].0, st.0[c].1, i0, k - 1));
                }
            }
            k - 1
        } else {
            if let Some(f) = cur {
                assert(ls.subrange(i0, k).drop_last() =~= ls.subrange(i0, k - 1));
                assert(ls.subrange(i0, k).last() == line);
                assert(st.2 == text + line + "\n"@);
                assert(!is_blank(st.2)) by {
                    let w = choose|w: int| 0 <= w < text.len() && !crate::text::is_ws(#[trigger] text[w]);
                    assert(st.2[w] == text[w]);
                }
            }
            assert forall|c: int| 0 <= c < st.0.len() implies is_section(ls, #[trigger] st.0[c]) by {
                assert(st.0[c] == prev.0[c]);
                assert(is_section(ls, prev.0[c]));
                let (a, b) = choose|a: int, b: int| section_at(ls, prev.0[c].0, prev.0[c].1, a, b);
                assert(section_at(ls, st.0[c].0, st.0[c].1, a, b));
            }
            i0
        }
    }
}

/// Each chunk of a diff is one file's section of it, exactly: the lines from
/// the file's `diff --git` header up to the next header or the end, each
/// with its line feed, under the path the header names.
pub proof fn lemma_chunks_are_file_sections(diff: Seq<char>)
    ensures
        all_sections(lines(diff), diff_chunks(diff)),
{
    let ls = lines(diff);
    let n = ls.len() as int;
    let i0 = lemma_split_lines_state(ls, n);
    let st = split_lines_state(ls, n);
    let r = diff_chunks(diff);
    assert forall|c: int| 0 <= c < r.len() implies is_section(ls, #[trigger] r[c]) by {
        if c < st.0.len() {
            assert(r[c] == st.0[c]);
            assert(is_section(ls, st.0[c]));
            let (a, b) = choose|a: int, b: int| section_at(ls, st.0[c].0, st.0[c].1, a, b);
            assert(section_at(ls, r[c].0, r[c].1, a, b));
        } else {
            let f = st.1->0;
            assert(r[c] == (f, st.2));
            assert(section_at(ls, f, st.2, i0, n));
            assert(section_at(ls, r[c].0, r[c].1, i0, n));
        }
    }
}

} // verus!
