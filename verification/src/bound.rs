//! Cutting a script's output down to what a reply can carry.

use vstd::prelude::*;
use vstd::string::*;
use vstd::utf8::*;

verus! {

broadcast use vstd::slice::group_slice_axioms;

/// Largest number of bytes of script output that a reply carries.
pub const MAX_OUTPUT_SIZE: usize = 1900;

/// The number of bytes that the text takes in UTF-8.
pub open spec fn utf8_len(text: Seq<char>) -> nat {
    encode_utf8(text).len()
}

/// The text cut down to at most `max` bytes of UTF-8 by dropping whole
/// characters from its end, as few as will do.
pub open spec fn bounded(text: Seq<char>, max: nat) -> Seq<char>
    decreases text.len(),
{
    if text.len() == 0 || utf8_len(text) <= max {
        text
    } else {
        bounded(text.drop_last(), max)
    }
}

/// A text of one character is encoded as that character is.
pub proof fn lemma_encode_single(c: char)
    ensures
        encode_utf8(seq![c]) == encode_scalar(c as u32),
        1 <= utf8_len(seq![c]) <= 4,
{
    reveal_with_fuel(encode_utf8, 2);
}

/// The encoding of two texts one after the other is their encodings one
/// after the other.
pub proof fn lemma_encode_concat(a: Seq<char>, b: Seq<char>)
    ensures
        encode_utf8(a + b) == encode_utf8(a) + encode_utf8(b),
        utf8_len(a + b) == utf8_len(a) + utf8_len(b),
    decreases a.len(),
{
    if a.len() > 0 {
        lemma_encode_concat(a.drop_first(), b);
        assert((a + b).drop_first() =~= a.drop_first() + b);
    }
}

/// A longer prefix takes more bytes.
pub proof fn lemma_prefix_len_grows(text: Seq<char>, j: int, k: int)
    requires
        0 <= j <= k <= text.len(),
    ensures
        utf8_len(text.take(j)) + (k - j) <= utf8_len(text.take(k)),
        utf8_len(text.take(k)) <= utf8_len(text),
    decreases k - j,
{
    assert(text =~= text.take(k) + text.skip(k));
    lemma_encode_concat(text.take(k), text.skip(k));
    if j < k {
        lemma_prefix_len_grows(text, j, k - 1);
        assert(text.take(k) =~= text.take(k - 1) + seq![text[k - 1]]);
        lemma_encode_concat(text.take(k - 1), seq![text[k - 1]]);
        lemma_encode_single(text[k - 1]);
    }
}

/// Where a prefix of whole characters ends, the encoding has a character
/// boundary.
pub proof fn lemma_prefix_ends_on_boundary(text: Seq<char>, k: int)
    requires
        0 <= k <= text.len(),
    ensures
        is_char_boundary(encode_utf8(text), utf8_len(text.take(k)) as int),
    decreases k,
{
    let bytes = encode_utf8(text);
    encode_utf8_valid_utf8(text);
    if k == 0 {
    } else {
        let rest = text.drop_first();
        encode_utf8_first_scalar(text);
        assert(pop_first_scalar(bytes) =~= encode_utf8(rest));
        lemma_prefix_ends_on_boundary(rest, k - 1);
        assert(text.take(k) =~= seq![text[0]] + rest.take(k - 1));
        lemma_encode_concat(seq![text[0]], rest.take(k - 1));
        lemma_encode_single(text[0]);
        lemma_prefix_len_grows(rest, k - 1, rest.len() as int);
        encode_utf8_valid_utf8(rest);
    }
}

/// A character boundary of the encoding is where some prefix of whole
/// characters ends.
pub proof fn lemma_boundary_ends_a_prefix(text: Seq<char>, index: int) -> (k: int)
    requires
        is_char_boundary(encode_utf8(text), index),
    ensures
        0 <= k <= text.len(),
        utf8_len(text.take(k)) == index,
{
    let bytes = encode_utf8(text);
    encode_utf8_valid_utf8(text);
    encode_utf8_decode_utf8(text);
    valid_utf8_split(bytes, index);
    decode_utf8_split(bytes, index);
    let head = decode_utf8(bytes.subrange(0, index));
    let tail = decode_utf8(bytes.subrange(index, bytes.len() as int));
    decode_utf8_encode_utf8(bytes.subrange(0, index));
    assert(text.take(head.len() as int) =~= head);
    head.len() as int
}

/// The one prefix that fits and cannot be made longer is what `bounded`
/// keeps.
pub proof fn lemma_bounded_is(text: Seq<char>, max: nat, kept: Seq<char>, dropped: Seq<char>)
    requires
        text == kept + dropped,
        utf8_len(kept) <= max,
        dropped.len() > 0 ==> utf8_len(kept.push(dropped[0])) > max,
    ensures
        bounded(text, max) == kept,
    decreases dropped.len(),
{
    if dropped.len() == 0 {
    } else {
        let next = kept.len() as int + 1;
        assert(text.take(next) =~= kept.push(dropped[0]));
        lemma_prefix_len_grows(text, next, text.len() as int);
        assert(text.drop_last() =~= kept + dropped.drop_last());
        lemma_bounded_is(text.drop_last(), max, kept, dropped.drop_last());
    }
}

/// What `bounded` keeps is a run of whole characters from the start of the
/// text: it ends on a character boundary of the encoding, so no character
/// is split. It takes at most `max` bytes, and no longer run from the start
/// of the text does.
pub proof fn lemma_bounded_keeps_whole_characters(text: Seq<char>, max: nat)
    ensures
        bounded(text, max).is_prefix_of(text),
        utf8_len(bounded(text, max)) <= max,
        is_char_boundary(encode_utf8(text), utf8_len(bounded(text, max)) as int),
        forall|k: int|
            bounded(text, max).len() < k <= text.len() ==> utf8_len(#[trigger] text.take(k)) > max,
    decreases text.len(),
{
    let kept = bounded(text, max);
    if text.len() == 0 || utf8_len(text) <= max {
        lemma_prefix_ends_on_boundary(text, text.len() as int);
    } else {
        let shorter = text.drop_last();
        lemma_bounded_keeps_whole_characters(shorter, max);
        lemma_prefix_ends_on_boundary(text, kept.len() as int);
        assert forall|k: int| kept.len() < k <= text.len() implies utf8_len(
            #[trigger] text.take(k),
        ) > max by {
            if k == text.len() {
                assert(text.take(k) =~= text);
            } else {
                assert(text.take(k) =~= shorter.take(k));
            }
        }
    }
}

/// Output that takes more than `max` bytes is cut down to exactly `max`
/// bytes, wherever `max` bytes into the encoding one character ends and
/// the next begins.
pub proof fn lemma_bounded_fills_the_limit(text: Seq<char>, max: nat)
    requires
        utf8_len(text) > max,
        is_char_boundary(encode_utf8(text), max as int),
    ensures
        utf8_len(bounded(text, max)) == max,
{
    let k = lemma_boundary_ends_a_prefix(text, max as int);
    let kept = text.take(k);
    let dropped = text.skip(k);
    assert(text =~= kept + dropped);
    assert(text.take(k + 1) =~= kept.push(dropped[0]));
    lemma_prefix_len_grows(text, k, k + 1);
    lemma_bounded_is(text, max, kept, dropped);
}

/// Text without a character beyond ASCII that is longer than `max` is cut
/// down to its first `max` characters.
pub proof fn lemma_bounded_ascii(text: Seq<char>, max: nat)
    requires
        is_ascii_chars(text),
        text.len() > max,
    ensures
        bounded(text, max) == text.take(max as int),
        utf8_len(bounded(text, max)) == max,
{
    let kept = text.take(max as int);
    let dropped = text.skip(max as int);
    let longer = text.take(max as int + 1);
    assert(text =~= kept + dropped);
    assert(longer =~= kept.push(dropped[0]));
    is_ascii_chars_encode_utf8(kept);
    is_ascii_chars_encode_utf8(longer);
    lemma_bounded_is(text, max, kept, dropped);
}

/// Cutting down what was cut down already changes nothing.
pub proof fn lemma_bounded_idempotent(text: Seq<char>, max: nat)
    ensures
        bounded(bounded(text, max), max) == bounded(text, max),
{
    lemma_bounded_keeps_whole_characters(text, max);
}

/// Cuts `output` down to at most `max` bytes by dropping whole characters
/// from its end, as few as will do. Nothing tells the caller whether
/// anything was dropped.
pub fn bound_output(output: String, max: usize) -> (kept: String)
    ensures
        kept@ == bounded(output@, max as nat),
{
    let text = output.as_str();
    let ghost bytes = encode_utf8(text@);
    proof {
        encode_utf8_valid_utf8(text@);
    }
    if text.as_bytes().len() <= max {
        return output;
    }
    let mut cut: usize = max;
    while !text.is_char_boundary(cut)
        invariant
            bytes == encode_utf8(text@),
            valid_utf8(bytes),
            cut <= max < bytes.len(),
            forall|i: int| cut < i <= max ==> !is_char_boundary(bytes, i),
        decreases cut,
    {
        cut = cut - 1;
    }
    let (head, tail) = text.split_at(cut);
    proof {
        assert(bytes =~= encode_utf8(head@) + encode_utf8(tail@));
        lemma_encode_concat(head@, tail@);
        encode_utf8_decode_utf8(text@);
        encode_utf8_decode_utf8(head@ + tail@);
        if tail@.len() > 0 {
            let here = head@.len() as int;
            assert(text@.take(here + 1) =~= head@.push(tail@[0]));
            lemma_prefix_ends_on_boundary(text@, here + 1);
            lemma_prefix_len_grows(text@, here, here + 1);
            assert(text@.take(here) =~= head@);
        }
        lemma_bounded_is(text@, max as nat, head@, tail@);
    }
    head.to_owned()
}

} // verus!
