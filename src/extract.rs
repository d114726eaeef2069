//! Fenced code blocks: three backticks, a tag of word characters, a newline,
//! a body, and three closing backticks. Blocks are taken in document order;
//! each body ends at the first closing fence after it.
use vstd::prelude::*;
use crate::text::chars_of;

verus! {

/// Whether a character is a word character in the Unicode sense of `\w`.
pub uninterp spec fn word_char(c: char) -> bool;

/// Relies on regex_syntax::is_word_character, the `\w` class of regular
/// expressions: the answer depends on the character alone.
#[verifier::external_body]
fn is_word_character(c: char) -> (r: bool)
    ensures
        r == word_char(c),
{
    regex_syntax::is_word_character(c)
}

/// A fenced block: its language tag and its body.
pub struct CodeBlock {
    pub language: String,
    pub code: String,
}

impl View for CodeBlock {
    type V = (Seq<char>, Seq<char>);

    open spec fn view(&self) -> (Seq<char>, Seq<char>) {
        (self.language@, self.code@)
    }
}

/// The reason why no block could be taken from a text.
#[derive(Clone, Copy, Debug, PartialEq, Eq)]
pub enum ExtractionError {
    NoCodeBlock,
}

impl ExtractionError {
    pub open spec fn text(self) -> Seq<char> {
        "ERROR: No code block found.\nHint: fence the code with '```<language>'"@
    }

    /// The user-facing text of the error.
    pub fn message(&self) -> (r: String)
        ensures
            r@ == self.text(),
    {
        String::from_str("ERROR: No code block found.\nHint: fence the code with '```<language>'")
    }
}

/// Whether three backticks start at `i`.
pub open spec fn fence_at(t: Seq<char>, i: int) -> bool {
    0 <= i && i + 3 <= t.len() && t[i] == '`' && t[i + 1] == '`' && t[i + 2] == '`'
}

/// The end of the run of word characters that starts at `k`.
pub open spec fn tag_end(t: Seq<char>, k: int) -> int
    decreases t.len() - k,
{
    if 0 <= k < t.len() && word_char(t[k]) {
        tag_end(t, k + 1)
    } else {
        k
    }
}

/// The first fence at or after `k`, or -1 where there is none.
pub open spec fn next_fence(t: Seq<char>, k: int) -> int
    decreases t.len() - k,
{
    if k < 0 || k + 3 > t.len() {
        -1
    } else if fence_at(t, k) {
        k
    } else {
        next_fence(t, k + 1)
    }
}

/// Where a block opens at `i`: the end of its tag and the start of its
/// closing fence.
pub open spec fn block_at(t: Seq<char>, i: int) -> Option<(int, int)> {
    if fence_at(t, i) {
        let w = tag_end(t, i + 3);
        if w < t.len() && t[w] == '\n' && next_fence(t, w + 1) >= 0 {
            Some((w, next_fence(t, w + 1)))
        } else {
            None
        }
    } else {
        None
    }
}

/// The blocks of `t` that start at or after `pos`, in document order, as
/// pairs of tag and body.
pub open spec fn blocks_from(t: Seq<char>, pos: int) -> Seq<(Seq<char>, Seq<char>)>
    decreases t.len() - pos,
{
    if pos < 0 || pos + 3 > t.len() {
        Seq::empty()
    } else {
        match block_at(t, pos) {
            Some((w, c)) => if pos + 3 <= w < c && c + 3 <= t.len() {
                seq![(t.subrange(pos + 3, w), t.subrange(w + 1, c))] + blocks_from(t, c + 3)
            } else {
                Seq::empty()
            },
            None => blocks_from(t, pos + 1),
        }
    }
}

/// All blocks of a text.
pub open spec fn code_blocks(t: Seq<char>) -> Seq<(Seq<char>, Seq<char>)> {
    blocks_from(t, 0)
}

proof fn lemma_tag_end_bounds(t: Seq<char>, k: int)
    requires
        0 <= k <= t.len(),
    ensures
        k <= tag_end(t, k) <= t.len(),
    decreases t.len() - k,
{
    if k < t.len() && word_char(t[k]) {
        lemma_tag_end_bounds(t, k + 1);
    }
}

proof fn lemma_next_fence_bounds(t: Seq<char>, k: int)
    ensures
        next_fence(t, k) == -1 || (k <= next_fence(t, k) && fence_at(t, next_fence(t, k))),
    decreases t.len() - k,
{
    if !(k < 0 || k + 3 > t.len()) && !fence_at(t, k) {
        lemma_next_fence_bounds(t, k + 1);
    }
}

fn find_tag_end(t: &Vec<char>, k: usize) -> (r: usize)
    requires
        k <= t@.len(),
    ensures
        r as int == tag_end(t@, k as int),
{
    let mut i = k;
    while i < t.len() && is_word_character(t[i])
        invariant
            k <= i <= t@.len(),
            tag_end(t@, i as int) == tag_end(t@, k as int),
        decreases t@.len() - i,
    {
        i = i + 1;
    }
    i
}

fn is_fence(t: &Vec<char>, i: usize) -> (r: bool)
    ensures
        r == fence_at(t@, i as int),
{
    i < t.len() && t.len() - i >= 3 && t[i] == '`' && t[i + 1] == '`' && t[i + 2] == '`'
}

fn find_fence(t: &Vec<char>, k: usize) -> (r: Option<usize>)
    ensures
        match r {
            Some(c) => c as int == next_fence(t@, k as int),
            None => next_fence(t@, k as int) == -1,
        },
{
    let mut i = k;
    while i < t.len() && t.len() - i >= 3
        invariant
            k <= i,
            next_fence(t@, i as int) == next_fence(t@, k as int),
        decreases t@.len() - i,
    {
        if is_fence(t, i) {
            return Some(i);
        }
        i = i + 1;
    }
    None
}

fn find_block_at(t: &Vec<char>, i: usize) -> (r: Option<(usize, usize)>)
    requires
        i + 3 <= t@.len(),
    ensures
        match r {
            Some((w, c)) => block_at(t@, i as int) == Some((w as int, c as int)),
            None => block_at(t@, i as int) is None,
        },
{
    if !is_fence(t, i) {
        return None;
    }
    let n = t.len();
    assert(i + 3 <= n);
    let w = find_tag_end(t, i + 3);
    proof {
        lemma_tag_end_bounds(t@, i + 3);
    }
    if w >= t.len() || t[w] != '\n' {
        return None;
    }
    match find_fence(t, w + 1) {
        Some(c) => Some((w, c)),
        None => None,
    }
}

/// Takes every fenced block of `content`, in document order.
pub fn extract_blocks(content: &str) -> (r: Result<Vec<CodeBlock>, ExtractionError>)
    ensures
        match r {
            Ok(v) => v@.len() > 0 && v@.map_values(|b: CodeBlock| b@) == code_blocks(content@),
            Err(e) => e == ExtractionError::NoCodeBlock && code_blocks(content@).len() == 0,
        },
{
    let t = chars_of(content);
    let mut out: Vec<CodeBlock> = Vec::new();
    let mut pos: usize = 0;
    while pos < t.len() && t.len() - pos >= 3
        invariant
            t@ == content@,
            out@.map_values(|b: CodeBlock| b@) + blocks_from(t@, pos as int) == code_blocks(t@),
        decreases t@.len() - pos,
    {
        match find_block_at(&t, pos) {
            Some((w, c)) => {
                proof {
                    lemma_tag_end_bounds(t@, pos + 3);
                    lemma_next_fence_bounds(t@, w + 1);
                }
                let block = CodeBlock {
                    language: String::from_str(content.substring_char(pos + 3, w)),
                    code: String::from_str(content.substring_char(w + 1, c)),
                };
                let ghost before = out@.map_values(|b: CodeBlock| b@);
                out.push(block);
                assert(out@.map_values(|b: CodeBlock| b@) =~= before.push(block@));
                assert(blocks_from(t@, pos as int) =~= seq![block@] + blocks_from(t@, c + 3));
                assert(before.push(block@) + blocks_from(t@, c + 3) =~= before + (seq![block@]
                    + blocks_from(t@, c + 3)));
                pos = c + 3;
            },
            None => {
                pos = pos + 1;
            },
        }
    }
    assert(blocks_from(t@, pos as int) =~= Seq::empty());
    assert(out@.map_values(|b: CodeBlock| b@) =~= code_blocks(t@));
    if out.len() == 0 {
        Err(ExtractionError::NoCodeBlock)
    } else {
        Ok(out)
    }
}

} // verus!
