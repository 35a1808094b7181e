//! From an incoming message to what is sent back for it.
//!
//! Each message is handled by itself: nothing is kept from one message to
//! the next.

use crate::bound::{
    bound_output, bounded, lemma_bounded_fills_the_limit, lemma_bounded_keeps_whole_characters,
    utf8_len, MAX_OUTPUT_SIZE,
};
use crate::engine::{
    compile_failure, interpreter_options, outcome_of_event, prepare, PreparedRun,
};
use crate::outcome::{
    optional_text, ExecutionOutcome, ExecutionOutcomeView, InterpreterEvent,
    InterpreterEventView, RenderedResponse, RenderedResponseView,
};
use crate::render::{
    breakdown_response, render, render_breakdown, render_timeout, rendered, success_reply,
    timeout_response,
};
use crate::trigger::{extract_source, trigger_source, TriggerMatch};
use vstd::prelude::*;
use vstd::string::*;
use vstd::utf8::{encode_utf8, is_char_boundary};

verus! {

/// The script that a message is answered for: none where its author is an
/// automated participant, whatever the message holds.
pub open spec fn accepted_source(author_is_bot: bool, content: Seq<char>) -> Option<Seq<char>> {
    if author_is_bot {
        None
    } else {
        trigger_source(content)
    }
}

/// Decides whether a message is answered, and gives the script to run if
/// it is. A message of an automated participant is turned away before its
/// text is looked at.
pub fn accept_message(author_is_bot: bool, content: &str) -> (source: Option<TriggerMatch>)
    ensures
        author_is_bot ==> source is None,
        optional_text(source) == accepted_source(author_is_bot, content@),
{
    if author_is_bot {
        return None;
    }
    extract_source(content)
}

/// The outcome with the output of a successful run cut down to `max` bytes.
/// The two kinds of failure are left as they are.
pub open spec fn bounded_outcome(outcome: ExecutionOutcomeView, max: nat) -> ExecutionOutcomeView {
    match outcome {
        ExecutionOutcomeView::Success(output) => ExecutionOutcomeView::Success(
            bounded(output, max),
        ),
        _ => outcome,
    }
}

/// Cuts the output of a successful run down to `max` bytes, and leaves the
/// two kinds of failure as they are.
pub fn bound_outcome(outcome: ExecutionOutcome, max: usize) -> (kept: ExecutionOutcome)
    ensures
        kept@ == bounded_outcome(outcome@, max as nat),
        outcome@.well_formed() ==> kept@.well_formed(),
{
    match outcome {
        ExecutionOutcome::Success(output) => ExecutionOutcome::Success(bound_output(output, max)),
        other => other,
    }
}

/// What is sent back for an outcome: the rendering of the outcome after
/// its output was cut down to [`MAX_OUTPUT_SIZE`] bytes.
pub open spec fn response_to(outcome: ExecutionOutcomeView) -> RenderedResponseView {
    rendered(bounded_outcome(outcome, MAX_OUTPUT_SIZE as nat))
}

/// The response is a function of the outcome: two responses to one outcome
/// carry the same reaction and the same reply, byte for byte.
pub proof fn lemma_response_repeatable(
    outcome: ExecutionOutcome,
    first: RenderedResponse,
    second: RenderedResponse,
)
    requires
        first@ == response_to(outcome@),
        second@ == response_to(outcome@),
    ensures
        first.reaction_glyph == second.reaction_glyph,
        first.reply_text@ == second.reply_text@,
        encode_utf8(first.reply_text@) == encode_utf8(second.reply_text@),
{
}

/// Where a script printed more than [`MAX_OUTPUT_SIZE`] bytes, and that
/// many bytes into its output one character ends and the next begins, the
/// reply shows exactly [`MAX_OUTPUT_SIZE`] bytes of output: the longest
/// run of whole characters from the start of the output that fits.
pub proof fn lemma_long_output_reply(output: Seq<char>)
    requires
        utf8_len(output) > MAX_OUTPUT_SIZE,
        is_char_boundary(encode_utf8(output), MAX_OUTPUT_SIZE as int),
    ensures
        response_to(ExecutionOutcomeView::Success(output)).reply_text == success_reply(
            bounded(output, MAX_OUTPUT_SIZE as nat),
        ),
        utf8_len(bounded(output, MAX_OUTPUT_SIZE as nat)) == MAX_OUTPUT_SIZE,
        bounded(output, MAX_OUTPUT_SIZE as nat).is_prefix_of(output),
{
    lemma_bounded_fills_the_limit(output, MAX_OUTPUT_SIZE as nat);
    lemma_bounded_keeps_whole_characters(output, MAX_OUTPUT_SIZE as nat);
}

/// Turns an outcome into the reaction and the reply that are sent back.
pub fn respond(outcome: ExecutionOutcome) -> (response: RenderedResponse)
    ensures
        response@ == response_to(outcome@),
{
    let kept = bound_outcome(outcome, MAX_OUTPUT_SIZE);
    render(&kept)
}

/// What is sent back for the interpreter's work, by what the caller saw of
/// it: the response to the outcome that the work came to, or, where it
/// came to none, the response to a timeout or to an interpreter that broke
/// down. What a broken interpreter said is cut down to
/// [`MAX_OUTPUT_SIZE`] bytes as the output of a script is.
pub open spec fn response_to_event(event: InterpreterEventView) -> RenderedResponseView {
    match event {
        InterpreterEventView::TimedOut => timeout_response(),
        InterpreterEventView::Aborted(message) => breakdown_response(
            bounded(message, MAX_OUTPUT_SIZE as nat),
        ),
        _ => response_to(outcome_of_event(event)->0),
    }
}

/// What the caller is to do next for a message.
#[derive(Debug)]
pub enum MessageStep {
    /// Nothing: the message is not answered.
    Ignore,
    /// Compile and run this script in this interpreter, and come back to
    /// [`conclude_run`] with what came of it.
    Interpret(PreparedRun),
}

/// Whether a step is the one that is due to a message: nothing for a
/// message that is not accepted, and for one that is, its script as it was
/// found, with an interpreter that is sandboxed.
pub open spec fn is_step_for(step: MessageStep, author_is_bot: bool, content: Seq<char>) -> bool {
    match accepted_source(author_is_bot, content) {
        None => step is Ignore,
        Some(source) => {
            &&& step matches MessageStep::Interpret(run)
            &&& run.source@ == source
            &&& interpreter_options(run.interpreter).is_sandboxed()
        },
    }
}

/// Handles one message up to the work of the interpreter. A message that
/// is not accepted is ignored, and no interpreter is made for it. The
/// script of an accepted message is handed back, whatever it holds, with a
/// fresh interpreter for the caller to compile and run it.
pub fn handle_message(author_is_bot: bool, content: &str) -> (step: MessageStep)
    ensures
        author_is_bot ==> step is Ignore,
        is_step_for(step, author_is_bot, content@),
{
    match accept_message(author_is_bot, content) {
        Some(source) => MessageStep::Interpret(prepare(source.as_str())),
        None => MessageStep::Ignore,
    }
}

/// Turns what the caller saw of the interpreter's work into the reaction
/// and the reply that are sent back. Work that did not end in time, and an
/// interpreter that broke down, each have a response of their own.
pub fn conclude_run(event: InterpreterEvent) -> (response: RenderedResponse)
    ensures
        response@ == response_to_event(event@),
{
    match event {
        InterpreterEvent::Rejected(notes) => respond(compile_failure(&notes)),
        InterpreterEvent::Finished(output) => respond(ExecutionOutcome::Success(output)),
        InterpreterEvent::Failed(failure) => respond(ExecutionOutcome::RuntimeFailure(failure)),
        InterpreterEvent::Aborted(message) => {
            let said = bound_output(message, MAX_OUTPUT_SIZE);
            render_breakdown(said.as_str())
        },
        InterpreterEvent::TimedOut => render_timeout(),
    }
}

/// The text that the relay shows as its activity: the language version of
/// the interpreter, and the version of its build in parentheses.
pub open spec fn status_text(language_version: Seq<char>, build_version: Seq<char>) -> Seq<char> {
    "Rant "@ + language_version + " ("@ + build_version + ")"@
}

/// Writes the text that the relay shows as its activity.
pub fn presence_status(language_version: &str, build_version: &str) -> (status: String)
    ensures
        status@ == status_text(language_version@, build_version@),
{
    let mut status = String::new();
    status.append("Rant ");
    status.append(language_version);
    status.append(" (");
    status.append(build_version);
    status.append(")");
    status
}

} // verus!
