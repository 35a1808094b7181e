//! A response as one text, for a caller that has the interpreter work in a
//! process of its own and needs the response handed across.
//!
//! The text is the reaction's character with the reply behind it.

use crate::handler::{conclude_run, response_to_event};
use crate::outcome::{
    InterpreterEvent, InterpreterEventView, ReactionGlyph, RenderedResponse, RenderedResponseView,
};
use crate::text::chars_of;
use vstd::prelude::*;
use vstd::string::*;

verus! {

/// A response as one text: the reaction's character, then the reply.
pub open spec fn encoded_response(response: RenderedResponseView) -> Seq<char> {
    seq![response.reaction_glyph.spec_symbol()] + response.reply_text
}

/// The reaction that is sent as the character `c`, if there is one.
pub open spec fn glyph_of(c: char) -> Option<ReactionGlyph> {
    if c == ReactionGlyph::Success.spec_symbol() {
        Some(ReactionGlyph::Success)
    } else if c == ReactionGlyph::CompileError.spec_symbol() {
        Some(ReactionGlyph::CompileError)
    } else if c == ReactionGlyph::RuntimeError.spec_symbol() {
        Some(ReactionGlyph::RuntimeError)
    } else {
        None
    }
}

/// The response that a text stands for: none where the text is empty or
/// does not begin with the character of a reaction.
pub open spec fn decoded_response(text: Seq<char>) -> Option<RenderedResponseView> {
    if text.len() == 0 {
        None
    } else {
        match glyph_of(text[0]) {
            Some(glyph) => Some(
                RenderedResponseView { reaction_glyph: glyph, reply_text: text.skip(1) },
            ),
            None => None,
        }
    }
}

/// A response that was written as a text is read back as it was.
pub proof fn lemma_decode_encode(response: RenderedResponseView)
    ensures
        decoded_response(encoded_response(response)) == Some(response),
{
    let text = encoded_response(response);
    assert(text.skip(1) =~= response.reply_text);
}

/// The view of a response that may be missing.
pub open spec fn optional_response(response: Option<RenderedResponse>) -> Option<
    RenderedResponseView,
> {
    match response {
        Some(r) => Some(r@),
        None => None,
    }
}

/// The one-character text of a reaction.
fn symbol_text(glyph: ReactionGlyph) -> (text: &'static str)
    ensures
        text@ == seq![glyph.spec_symbol()],
{
    proof {
        reveal_strlit("\u{2705}");
        reveal_strlit("\u{2753}");
        reveal_strlit("\u{274C}");
    }
    let text = match glyph {
        ReactionGlyph::Success => "\u{2705}",
        ReactionGlyph::CompileError => "\u{2753}",
        ReactionGlyph::RuntimeError => "\u{274C}",
    };
    text
}

/// Writes a response as one text.
pub fn encode_response(response: &RenderedResponse) -> (text: String)
    ensures
        text@ == encoded_response(response@),
{
    let mut text = String::new();
    text.append(symbol_text(response.reaction_glyph));
    text.append(response.reply_text.as_str());
    text
}

/// Reads a response from a text.
pub fn decode_response(text: &str) -> (response: Option<RenderedResponse>)
    ensures
        optional_response(response) == decoded_response(text@),
{
    let chars = chars_of(text);
    if chars.len() == 0 {
        return None;
    }
    let first = chars[0];
    let glyph = if first == ReactionGlyph::Success.symbol() {
        ReactionGlyph::Success
    } else if first == ReactionGlyph::CompileError.symbol() {
        ReactionGlyph::CompileError
    } else if first == ReactionGlyph::RuntimeError.symbol() {
        ReactionGlyph::RuntimeError
    } else {
        return None;
    };
    let reply = text.substring_char(1, chars.len());
    Some(RenderedResponse { reaction_glyph: glyph, reply_text: reply.to_owned() })
}

/// What is sent back for work that was done in a process of its own: the
/// response that the process printed, where it ended well and printed one;
/// else the response to an interpreter that broke down with the process's
/// complaint.
pub open spec fn response_of_process(
    ended_well: bool,
    printed: Seq<char>,
    complaint: Seq<char>,
) -> RenderedResponseView {
    if ended_well && decoded_response(printed) is Some {
        decoded_response(printed)->0
    } else {
        response_to_event(InterpreterEventView::Aborted(complaint))
    }
}

/// Turns what a process left behind into the reaction and the reply that
/// are sent back.
pub fn conclude_process(ended_well: bool, printed: &str, complaint: &str) -> (response:
    RenderedResponse)
    ensures
        response@ == response_of_process(ended_well, printed@, complaint@),
{
    if ended_well {
        match decode_response(printed) {
            Some(response) => { return response; },
            None => {},
        }
    }
    conclude_run(InterpreterEvent::Aborted(complaint.to_owned()))
}

} // verus!
