//! From an outcome to the reaction and the reply that are sent back.

use crate::outcome::{
    diagnostics_view, lemma_numbered, numbered, position_view, well_numbered, CompileDiagnostic, CompileDiagnosticView, CompilerNoteView,
    ExecutionOutcome, ExecutionOutcomeView, ReactionGlyph, RenderedResponse, RenderedResponseView, RuntimeFailure,
    RuntimeFailureView,
};
use crate::text::{decimal, has_at, push_decimal};
use vstd::prelude::*;
use vstd::string::*;
use vstd::utf8::encode_utf8;

verus! {

/// The reply to a script that ran to its end: its output in a plain
/// preformatted block.
pub open spec fn success_reply(output: Seq<char>) -> Seq<char> {
    "```\n"@ + output + "\n```"@
}

/// A position as `line,column`; `0,0` where the compiler gave none.
pub open spec fn position_text(position: Option<(nat, nat)>) -> Seq<char> {
    match position {
        Some((line, column)) => decimal(line) + ","@ + decimal(column),
        None => "0,0"@,
    }
}

/// The line of the report that stands for one diagnostic: ordinal,
/// position, code and message, closed by a line feed.
pub open spec fn diagnostic_line(diagnostic: CompileDiagnosticView) -> Seq<char> {
    decimal(diagnostic.ordinal) + ". ("@ + position_text(diagnostic.position) + ") "@
        + diagnostic.code + ": "@ + diagnostic.message + "\n"@
}

/// The lines of the report, one for each diagnostic, in the list's order.
pub open spec fn report_lines(diagnostics: Seq<CompileDiagnosticView>) -> Seq<Seq<char>> {
    Seq::new(diagnostics.len(), |i: int| diagnostic_line(diagnostics[i]))
}

/// The texts one after the other.
pub open spec fn joined(parts: Seq<Seq<char>>) -> Seq<char>
    decreases parts.len(),
{
    if parts.len() == 0 {
        Seq::empty()
    } else {
        joined(parts.drop_last()) + parts.last()
    }
}

/// The reply to a script that did not compile: a header, then the lines of
/// the report in a preformatted block.
pub open spec fn compile_report(diagnostics: Seq<CompileDiagnosticView>) -> Seq<char> {
    "Build failed!\n\n```\n"@ + joined(report_lines(diagnostics)) + "\n```"@
}

/// The stack trace, or `(none)` where there is none.
pub open spec fn trace_text(stack_trace: Option<Seq<char>>) -> Seq<char> {
    match stack_trace {
        Some(trace) => trace,
        None => "(none)"@,
    }
}

/// The reply to a script that failed while it ran: a header, then the
/// class of the error, its description and the stack trace.
pub open spec fn crash_report(failure: RuntimeFailureView) -> Seq<char> {
    "Crashed!\n\n```["@ + failure.error_type + "] "@ + failure.description
        + "\n\nstack trace:\n"@ + trace_text(failure.stack_trace) + "```"@
}

/// The reaction that goes with an outcome.
pub open spec fn reaction_for(outcome: ExecutionOutcomeView) -> ReactionGlyph {
    match outcome {
        ExecutionOutcomeView::Success(_) => ReactionGlyph::Success,
        ExecutionOutcomeView::CompileFailure(_) => ReactionGlyph::CompileError,
        ExecutionOutcomeView::RuntimeFailure(_) => ReactionGlyph::RuntimeError,
    }
}

/// The reply that goes with an outcome.
pub open spec fn reply_for(outcome: ExecutionOutcomeView) -> Seq<char> {
    match outcome {
        ExecutionOutcomeView::Success(output) => success_reply(output),
        ExecutionOutcomeView::CompileFailure(diagnostics) => compile_report(diagnostics),
        ExecutionOutcomeView::RuntimeFailure(failure) => crash_report(failure),
    }
}

/// What is sent back for an outcome. Nothing but the outcome enters it.
pub open spec fn rendered(outcome: ExecutionOutcomeView) -> RenderedResponseView {
    RenderedResponseView { reaction_glyph: reaction_for(outcome), reply_text: reply_for(outcome) }
}

/// Texts joined in two runs are the texts joined in one.
pub proof fn lemma_joined_concat(front: Seq<Seq<char>>, back: Seq<Seq<char>>)
    ensures
        joined(front + back) == joined(front) + joined(back),
    decreases back.len(),
{
    if back.len() > 0 {
        lemma_joined_concat(front, back.drop_last());
        assert((front + back).drop_last() =~= front + back.drop_last());
    }
}

/// The report of a failed compilation holds exactly one line for each
/// diagnostic, in the order of the list. Where the list is numbered from
/// one, line `i` begins with the numeral of `i + 1`, and goes on with the
/// diagnostic's position (`0,0` where it has none), its code and its
/// message, each as it stands in the diagnostic. In the reply the line
/// stands behind the header and the lines before it.
pub proof fn lemma_report_lines(diagnostics: Seq<CompileDiagnosticView>, i: int)
    requires
        well_numbered(diagnostics),
        0 <= i < diagnostics.len(),
    ensures
        report_lines(diagnostics).len() == diagnostics.len(),
        report_lines(diagnostics)[i] == decimal((i + 1) as nat) + ". ("@ + position_text(
            diagnostics[i].position,
        ) + ") "@ + diagnostics[i].code + ": "@ + diagnostics[i].message + "\n"@,
        compile_report(diagnostics) == "Build failed!\n\n```\n"@ + joined(
            report_lines(diagnostics).take(i),
        ) + report_lines(diagnostics)[i] + joined(report_lines(diagnostics).skip(i + 1))
            + "\n```"@,
{
    let lines = report_lines(diagnostics);
    let before = lines.take(i);
    let after = lines.skip(i + 1);
    assert(lines =~= (before + seq![lines[i]]) + after);
    lemma_joined_concat(before + seq![lines[i]], after);
    lemma_joined_concat(before, seq![lines[i]]);
    assert(joined(seq![lines[i]]) =~= lines[i]) by {
        reveal_with_fuel(joined, 2);
    }
}

/// Where a compilation fails with `n` messages, the report holds `n`
/// lines. Line `i` carries the numeral of `i + 1` and the position (`0,0`
/// where there is none), the code and the text of the compiler's `i`-th
/// message, each as the compiler gave it.
pub proof fn lemma_failed_compilation_report(notes: Seq<CompilerNoteView>, i: int)
    requires
        0 <= i < notes.len(),
    ensures
        report_lines(numbered(notes)).len() == notes.len(),
        report_lines(numbered(notes))[i] == decimal((i + 1) as nat) + ". ("@ + position_text(
            notes[i].position,
        ) + ") "@ + notes[i].code + ": "@ + notes[i].message + "\n"@,
{
    lemma_numbered(notes);
    lemma_report_lines(numbered(notes), i);
}

/// The report of a run that failed holds the error's type and its
/// description as they stand in the failure, and then the stack trace as
/// it was captured, or `(none)` where none was.
pub proof fn lemma_crash_report_parts(failure: RuntimeFailureView)
    ensures
        has_at(crash_report(failure), "Crashed!\n\n```["@.len() as int, failure.error_type),
        has_at(
            crash_report(failure),
            ("Crashed!\n\n```["@ + failure.error_type + "] "@).len() as int,
            failure.description,
        ),
        has_at(
            crash_report(failure),
            ("Crashed!\n\n```["@ + failure.error_type + "] "@ + failure.description
                + "\n\nstack trace:\n"@).len() as int,
            trace_text(failure.stack_trace),
        ),
        failure.stack_trace matches Some(trace) ==> trace_text(failure.stack_trace) == trace,
        failure.stack_trace is None ==> trace_text(failure.stack_trace) == "(none)"@,
{
    let report = crash_report(failure);
    let a = "Crashed!\n\n```["@;
    let b = a + failure.error_type;
    let c = b + "] "@;
    let d = c + failure.description;
    let e = d + "\n\nstack trace:\n"@;
    let f = e + trace_text(failure.stack_trace);
    assert(report.subrange(a.len() as int, b.len() as int) =~= failure.error_type);
    assert(report.subrange(c.len() as int, d.len() as int) =~= failure.description);
    assert(report.subrange(e.len() as int, f.len() as int) =~= trace_text(failure.stack_trace));
}

/// Rendering is a function of the outcome: two renderings of one outcome
/// carry the same reaction and the same reply, byte for byte.
pub proof fn lemma_render_repeatable(
    outcome: ExecutionOutcome,
    first: RenderedResponse,
    second: RenderedResponse,
)
    requires
        first@ == rendered(outcome@),
        second@ == rendered(outcome@),
    ensures
        first.reaction_glyph == second.reaction_glyph,
        first.reply_text@ == second.reply_text@,
        encode_utf8(first.reply_text@) == encode_utf8(second.reply_text@),
{
}

/// Appends a position as `line,column`, or `0,0` where there is none.
fn push_position(out: &mut String, position: Option<(usize, usize)>)
    ensures
        final(out)@ == old(out)@ + position_text(position_view(position)),
{
    match position {
        Some((line, column)) => {
            push_decimal(out, line);
            out.append(",");
            push_decimal(out, column);
        },
        None => {
            out.append("0,0");
        },
    }
}

/// Appends the line of the report that stands for `diagnostic`.
fn push_diagnostic_line(out: &mut String, diagnostic: &CompileDiagnostic)
    ensures
        final(out)@ == old(out)@ + diagnostic_line(diagnostic@),
{
    push_decimal(out, diagnostic.ordinal);
    out.append(". (");
    push_position(out, diagnostic.position);
    out.append(") ");
    out.append(diagnostic.code.as_str());
    out.append(": ");
    out.append(diagnostic.message.as_str());
    out.append("\n");
}

/// Renders the reply to a script that ran to its end.
pub fn render_success(output: &str) -> (reply: String)
    ensures
        reply@ == success_reply(output@),
{
    let mut reply = String::new();
    reply.append("```\n");
    reply.append(output);
    reply.append("\n```");
    reply
}

/// Renders the reply to a script that did not compile: one line for each
/// diagnostic, in the order of the list.
pub fn render_compile_failure(diagnostics: &Vec<CompileDiagnostic>) -> (reply: String)
    ensures
        reply@ == compile_report(diagnostics_view(diagnostics@)),
{
    let ghost views = diagnostics_view(diagnostics@);
    let mut reply = String::new();
    reply.append("Build failed!\n\n```\n");
    for i in 0..diagnostics.len()
        invariant
            views == diagnostics_view(diagnostics@),
            reply@ == "Build failed!\n\n```\n"@ + joined(report_lines(views.take(i as int))),
    {
        proof {
            let before = report_lines(views.take(i as int));
            let after = report_lines(views.take(i + 1));
            assert(after.drop_last() =~= before);
        }
        push_diagnostic_line(&mut reply, &diagnostics[i]);
    }
    assert(views.take(diagnostics.len() as int) =~= views);
    reply.append("\n```");
    reply
}

/// Renders the reply to a script that failed while it ran.
pub fn render_runtime_failure(failure: &RuntimeFailure) -> (reply: String)
    ensures
        reply@ == crash_report(failure@),
{
    let mut reply = String::new();
    reply.append("Crashed!\n\n```[");
    reply.append(failure.error_type.as_str());
    reply.append("] ");
    reply.append(failure.description.as_str());
    reply.append("\n\nstack trace:\n");
    match &failure.stack_trace {
        Some(trace) => reply.append(trace.as_str()),
        None => reply.append("(none)"),
    }
    reply.append("```");
    reply
}

/// What is sent back for work that did not end in time: the reaction of a
/// failure at run time, and a reply that names the timeout.
pub open spec fn timeout_response() -> RenderedResponseView {
    RenderedResponseView { reaction_glyph: ReactionGlyph::RuntimeError, reply_text: "Timed out!"@ }
}

/// Renders the response to work that did not end in time.
pub fn render_timeout() -> (response: RenderedResponse)
    ensures
        response@ == timeout_response(),
{
    let mut reply = String::new();
    reply.append("Timed out!");
    RenderedResponse { reaction_glyph: ReactionGlyph::RuntimeError, reply_text: reply }
}

/// The reply to an interpreter that broke down: a header, then what the
/// interpreter said in a preformatted block.
pub open spec fn breakdown_reply(message: Seq<char>) -> Seq<char> {
    "Broke down!\n\n```\n"@ + message + "\n```"@
}

/// What is sent back for an interpreter that broke down: the reaction of a
/// failure at run time, and the reply that holds what it said.
pub open spec fn breakdown_response(message: Seq<char>) -> RenderedResponseView {
    RenderedResponseView {
        reaction_glyph: ReactionGlyph::RuntimeError,
        reply_text: breakdown_reply(message),
    }
}

/// Renders the response to an interpreter that broke down.
pub fn render_breakdown(message: &str) -> (response: RenderedResponse)
    ensures
        response@ == breakdown_response(message@),
{
    let mut reply = String::new();
    reply.append("Broke down!\n\n```\n");
    reply.append(message);
    reply.append("\n```");
    RenderedResponse { reaction_glyph: ReactionGlyph::RuntimeError, reply_text: reply }
}

/// The replies to a timeout and to an interpreter that broke down are the
/// reply to no outcome, and differ from each other: each reply begins with
/// its fence or with a header of its own.
pub proof fn lemma_replies_without_outcome_are_distinct(
    outcome: ExecutionOutcomeView,
    message: Seq<char>,
)
    ensures
        reply_for(outcome) != timeout_response().reply_text,
        reply_for(outcome) != breakdown_reply(message),
        breakdown_reply(message) != timeout_response().reply_text,
{
    reveal_strlit("Timed out!");
    reveal_strlit("Broke down!\n\n```\n");
    reveal_strlit("```\n");
    reveal_strlit("Build failed!\n\n```\n");
    reveal_strlit("Crashed!\n\n```[");
    let reply = reply_for(outcome);
    let broke = breakdown_reply(message);
    assert(broke[0] == 'B' && broke[1] == 'r');
    match outcome {
        ExecutionOutcomeView::Success(output) => {
            assert(reply[0] == '`');
        },
        ExecutionOutcomeView::CompileFailure(diagnostics) => {
            assert(reply[0] == 'B' && reply[1] == 'u');
        },
        ExecutionOutcomeView::RuntimeFailure(failure) => {
            assert(reply[0] == 'C');
        },
    }
}

/// Renders an outcome as the reaction and the reply that are sent back.
pub fn render(outcome: &ExecutionOutcome) -> (response: RenderedResponse)
    ensures
        response@ == rendered(outcome@),
{
    match outcome {
        ExecutionOutcome::Success(output) => RenderedResponse {
            reaction_glyph: ReactionGlyph::Success,
            reply_text: render_success(output.as_str()),
        },
        ExecutionOutcome::CompileFailure(diagnostics) => RenderedResponse {
            reaction_glyph: ReactionGlyph::CompileError,
            reply_text: render_compile_failure(diagnostics),
        },
        ExecutionOutcome::RuntimeFailure(failure) => RenderedResponse {
            reaction_glyph: ReactionGlyph::RuntimeError,
            reply_text: render_runtime_failure(failure),
        },
    }
}

} // verus!
