//! Finding the script in a message.
//!
//! A message triggers a run where it holds three backticks with the tag
//! `rantbot` straight behind them, then white space, and somewhere after
//! that three backticks again. The script is what stands between the tag
//! and those closing backticks, without the white space at either end.
//! Only the first such block of a message counts.

use crate::text::{
    chars_of, has_at, is_space, is_whitespace, lemma_trimmed, trim_end, trim_start, trimmed,
};
use crate::outcome::optional_text;
use vstd::prelude::*;
use vstd::string::*;

verus! {

/// The script found in a message, as it will be handed to the interpreter.
pub type TriggerMatch = String;

/// What opens a block: the fence with the tag straight behind it.
pub const TRIGGER_OPENING: &'static str = "```rantbot";

/// What closes a block.
pub const TRIGGER_FENCE: &'static str = "```";

/// Whether a block opens at index `at`: the opening stands there, and a
/// white space character follows it.
pub open spec fn opens_at(text: Seq<char>, at: int) -> bool {
    &&& has_at(text, at, TRIGGER_OPENING@)
    &&& at + TRIGGER_OPENING@.len() < text.len()
    &&& is_space(text[at + TRIGGER_OPENING@.len()])
}

/// Whether a fence stands at index `at`.
pub open spec fn fence_at(text: Seq<char>, at: int) -> bool {
    has_at(text, at, TRIGGER_FENCE@)
}

/// The first index from `from` on at which a block opens.
pub open spec fn first_opening(text: Seq<char>, from: int) -> Option<int>
    decreases text.len() - from,
{
    if from < 0 || from >= text.len() {
        None
    } else if opens_at(text, from) {
        Some(from)
    } else {
        first_opening(text, from + 1)
    }
}

/// The first index from `from` on at which a fence stands.
pub open spec fn first_fence(text: Seq<char>, from: int) -> Option<int>
    decreases text.len() - from,
{
    if from < 0 || from >= text.len() {
        None
    } else if fence_at(text, from) {
        Some(from)
    } else {
        first_fence(text, from + 1)
    }
}

/// The script that a message carries: what stands between the first
/// opening and the first fence after it, without the white space at
/// either end. `None` where no block opens, or none is closed.
pub open spec fn trigger_source(text: Seq<char>) -> Option<Seq<char>> {
    match first_opening(text, 0) {
        Some(open) => {
            let inside = open + TRIGGER_OPENING@.len();
            match first_fence(text, inside) {
                Some(close) => Some(trimmed(text.subrange(inside, close))),
                None => None,
            }
        },
        None => None,
    }
}

/// `first_opening` gives the least index from `from` on at which a block
/// opens, and `None` only where there is none.
pub proof fn lemma_first_opening(text: Seq<char>, from: int)
    requires
        0 <= from,
    ensures
        match first_opening(text, from) {
            Some(open) => from <= open < text.len() && opens_at(text, open) && forall|q: int|
                from <= q < open ==> !opens_at(text, q),
            None => forall|q: int| from <= q ==> !opens_at(text, q),
        },
    decreases text.len() - from,
{
    if from < text.len() && !opens_at(text, from) {
        lemma_first_opening(text, from + 1);
    }
}

/// `first_fence` gives the least index from `from` on at which a fence
/// stands, and `None` only where there is none.
pub proof fn lemma_first_fence(text: Seq<char>, from: int)
    requires
        0 <= from,
    ensures
        match first_fence(text, from) {
            Some(close) => from <= close < text.len() && fence_at(text, close) && forall|q: int|
                from <= q < close ==> !fence_at(text, q),
            None => forall|q: int| from <= q ==> !fence_at(text, q),
        },
    decreases text.len() - from,
{
    reveal_strlit("```");
    if from < text.len() && !fence_at(text, from) {
        lemma_first_fence(text, from + 1);
    }
}

/// Where a message holds a block, the script is exactly what stands
/// between the block's opening and its closing fence, without the white
/// space at either end. The block is the first that opens in the message,
/// and its closing fence is the first fence behind the opening.
pub proof fn lemma_block_source(text: Seq<char>, open: int, close: int)
    requires
        opens_at(text, open),
        forall|q: int| 0 <= q < open ==> !opens_at(text, q),
        open + TRIGGER_OPENING@.len() <= close,
        fence_at(text, close),
        forall|q: int| open + TRIGGER_OPENING@.len() <= q < close ==> !fence_at(text, q),
    ensures
        trigger_source(text) == Some(
            trimmed(text.subrange(open + TRIGGER_OPENING@.len(), close)),
        ),
{
    lemma_first_opening(text, 0);
    lemma_first_fence(text, open + TRIGGER_OPENING@.len());
}

/// The script of a message is a stretch of the message itself. It neither
/// begins nor ends with white space, and no fence stands in it. The result
/// gives the two ends of the stretch.
pub proof fn lemma_source_shape(text: Seq<char>) -> (ends: (int, int))
    requires
        trigger_source(text) is Some,
    ensures
        0 <= ends.0 <= ends.1 <= text.len(),
        trigger_source(text) == Some(text.subrange(ends.0, ends.1)),
        ends.0 < ends.1 ==> !is_space(text[ends.0]) && !is_space(text[ends.1 - 1]),
        forall|q: int| ends.0 <= q < ends.1 ==> !fence_at(text, q),
{
    lemma_first_opening(text, 0);
    let inside = first_opening(text, 0).unwrap() + TRIGGER_OPENING@.len();
    lemma_first_fence(text, inside);
    let close = first_fence(text, inside).unwrap();
    let inner = text.subrange(inside, close);
    let kept = lemma_trimmed(inner);
    (inside + kept.0, inside + kept.1)
}

/// A message in which no block opens carries no script.
pub proof fn lemma_no_opening_no_source(text: Seq<char>)
    requires
        forall|q: int| 0 <= q ==> !opens_at(text, q),
    ensures
        trigger_source(text) is None,
{
    lemma_first_opening(text, 0);
}

/// A message whose first block is never closed carries no script, whatever
/// else it holds.
pub proof fn lemma_unclosed_block_no_source(text: Seq<char>, open: int)
    requires
        opens_at(text, open),
        forall|q: int| 0 <= q < open ==> !opens_at(text, q),
        forall|q: int| open + TRIGGER_OPENING@.len() <= q ==> !fence_at(text, q),
    ensures
        trigger_source(text) is None,
{
    lemma_first_opening(text, 0);
    lemma_first_fence(text, open + TRIGGER_OPENING@.len());
}

/// Tests whether `pattern` stands in `text` at index `at`.
fn stands_at(text: &Vec<char>, at: usize, pattern: &str) -> (found: bool)
    ensures
        found == has_at(text@, at as int, pattern@),
{
    let len: usize = pattern.unicode_len();
    if len > text.len() || at > text.len() - len {
        return false;
    }
    let mut i: usize = 0;
    while i < len
        invariant
            i <= len,
            len == pattern@.len(),
            at + len <= text.len(),
            forall|j: int| 0 <= j < i ==> text@[at + j] == pattern@[j],
        decreases len - i,
    {
        if text[at + i] != pattern.get_char(i) {
            return false;
        }
        i = i + 1;
    }
    assert(text@.subrange(at as int, at + len) =~= pattern@);
    true
}

/// Tests whether a block opens at index `at`.
fn block_opens_at(text: &Vec<char>, at: usize) -> (found: bool)
    ensures
        found == opens_at(text@, at as int),
{
    if !stands_at(text, at, TRIGGER_OPENING) {
        return false;
    }
    let len: usize = TRIGGER_OPENING.unicode_len();
    assert(at + len <= text.len());
    at + len < text.len() && is_whitespace(text[at + len])
}

/// Finds the first index from `from` on at which a block opens.
fn find_opening(text: &Vec<char>, from: usize) -> (found: Option<usize>)
    ensures
        match found {
            Some(open) => first_opening(text@, from as int) == Some(open as int),
            None => first_opening(text@, from as int) is None,
        },
{
    let mut at: usize = from;
    while at < text.len()
        invariant
            from <= at,
            first_opening(text@, from as int) == first_opening(text@, at as int),
        decreases text.len() - at,
    {
        if block_opens_at(text, at) {
            return Some(at);
        }
        at = at + 1;
    }
    None
}

/// Finds the first index from `from` on at which a fence stands.
fn find_fence(text: &Vec<char>, from: usize) -> (found: Option<usize>)
    ensures
        match found {
            Some(close) => first_fence(text@, from as int) == Some(close as int),
            None => first_fence(text@, from as int) is None,
        },
{
    let mut at: usize = from;
    while at < text.len()
        invariant
            from <= at,
            first_fence(text@, from as int) == first_fence(text@, at as int),
        decreases text.len() - at,
    {
        if stands_at(text, at, TRIGGER_FENCE) {
            return Some(at);
        }
        at = at + 1;
    }
    None
}

/// Finds where `text[from..to]` begins once the white space at its start
/// is left out.
fn skip_space(text: &Vec<char>, from: usize, to: usize) -> (start: usize)
    requires
        from <= to <= text@.len(),
    ensures
        from <= start <= to,
        text@.subrange(start as int, to as int) == trim_start(text@.subrange(from as int, to as int)),
{
    let mut start: usize = from;
    while start < to && is_whitespace(text[start])
        invariant
            from <= start <= to <= text@.len(),
            trim_start(text@.subrange(start as int, to as int)) == trim_start(
                text@.subrange(from as int, to as int),
            ),
        decreases to - start,
    {
        assert(text@.subrange(start as int, to as int).drop_first() =~= text@.subrange(
            start + 1,
            to as int,
        ));
        start = start + 1;
    }
    start
}

/// Finds where `text[from..to]` ends once the white space at its end is
/// left out.
fn drop_space(text: &Vec<char>, from: usize, to: usize) -> (end: usize)
    requires
        from <= to <= text@.len(),
    ensures
        from <= end <= to,
        text@.subrange(from as int, end as int) == trim_end(text@.subrange(from as int, to as int)),
{
    let mut end: usize = to;
    while end > from && is_whitespace(text[end - 1])
        invariant
            from <= end <= to <= text@.len(),
            trim_end(text@.subrange(from as int, end as int)) == trim_end(
                text@.subrange(from as int, to as int),
            ),
        decreases end - from,
    {
        assert(text@.subrange(from as int, end as int).drop_last() =~= text@.subrange(
            from as int,
            end - 1,
        ));
        end = end - 1;
    }
    end
}

/// Extracts the script that a message carries, if it carries one.
pub fn extract_source(content: &str) -> (source: Option<TriggerMatch>)
    ensures
        optional_text(source) == trigger_source(content@),
{
    let text = chars_of(content);
    let open = match find_opening(&text, 0) {
        Some(open) => open,
        None => { return None; },
    };
    proof {
        lemma_first_opening(text@, 0);
        assert(open + TRIGGER_OPENING@.len() < text.len());
    }
    let inside: usize = open + TRIGGER_OPENING.unicode_len();
    let close = match find_fence(&text, inside) {
        Some(close) => close,
        None => { return None; },
    };
    proof {
        lemma_first_fence(text@, inside as int);
    }
    let start = skip_space(&text, inside, close);
    let end = drop_space(&text, start, close);
    let script = content.substring_char(start, end);
    Some(script.to_owned())
}

} // verus!
