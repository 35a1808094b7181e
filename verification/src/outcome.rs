//! What one run of a script came to, and what is sent back for it.

use vstd::prelude::*;

verus! {

/// Reaction attached to a message whose script ran to its end.
pub const EMOJI_SUCCESS: char = '\u{2705}';

/// Reaction attached to a message whose script did not compile.
pub const EMOJI_COMPILE_ERROR: char = '\u{2753}';

/// Reaction attached to a message whose script failed while it ran, did
/// not end in time, or brought the interpreter down.
pub const EMOJI_RUNTIME_ERROR: char = '\u{274C}';

/// A message of the compiler as it was reported, not yet numbered.
#[derive(Debug, Clone, PartialEq, Eq)]
pub struct CompilerNote {
    /// Line and column in the source, where the compiler gave them.
    pub position: Option<(usize, usize)>,
    /// The compiler's code for this kind of message.
    pub code: String,
    /// What the compiler said.
    pub message: String,
}

/// The mathematical content of a [`CompilerNote`].
pub struct CompilerNoteView {
    pub position: Option<(nat, nat)>,
    pub code: Seq<char>,
    pub message: Seq<char>,
}

/// The position as a pair of naturals.
pub open spec fn position_view(position: Option<(usize, usize)>) -> Option<(nat, nat)> {
    match position {
        Some((line, column)) => Some((line as nat, column as nat)),
        None => None,
    }
}

impl View for CompilerNote {
    type V = CompilerNoteView;

    open spec fn view(&self) -> CompilerNoteView {
        CompilerNoteView {
            position: position_view(self.position),
            code: self.code@,
            message: self.message@,
        }
    }
}

/// One entry of the list that a failed compilation leaves.
#[derive(Debug, Clone, PartialEq, Eq)]
pub struct CompileDiagnostic {
    /// Place in the compiler's list, counted from one.
    pub ordinal: usize,
    /// Line and column in the source, where the compiler gave them.
    pub position: Option<(usize, usize)>,
    /// The compiler's code for this kind of message.
    pub code: String,
    /// What the compiler said.
    pub message: String,
}

/// The mathematical content of a [`CompileDiagnostic`].
pub struct CompileDiagnosticView {
    pub ordinal: nat,
    pub position: Option<(nat, nat)>,
    pub code: Seq<char>,
    pub message: Seq<char>,
}

impl View for CompileDiagnostic {
    type V = CompileDiagnosticView;

    open spec fn view(&self) -> CompileDiagnosticView {
        CompileDiagnosticView {
            ordinal: self.ordinal as nat,
            position: position_view(self.position),
            code: self.code@,
            message: self.message@,
        }
    }
}

/// The views of a list of diagnostics, in the list's order.
pub open spec fn diagnostics_view(diagnostics: Seq<CompileDiagnostic>) -> Seq<
    CompileDiagnosticView,
> {
    diagnostics.map_values(|d: CompileDiagnostic| d@)
}

/// The diagnostic that the compiler's `index`-th message becomes.
pub open spec fn numbered_note(note: CompilerNoteView, index: int) -> CompileDiagnosticView {
    CompileDiagnosticView {
        ordinal: (index + 1) as nat,
        position: note.position,
        code: note.code,
        message: note.message,
    }
}

/// The compiler's messages in the order in which they came, each with its
/// place in that order, counted from one.
pub open spec fn numbered(notes: Seq<CompilerNoteView>) -> Seq<CompileDiagnosticView> {
    Seq::new(notes.len(), |i: int| numbered_note(notes[i], i))
}

/// Whether each diagnostic carries its own place in the list, counted from
/// one.
pub open spec fn well_numbered(diagnostics: Seq<CompileDiagnosticView>) -> bool {
    forall|i: int| 0 <= i < diagnostics.len() ==> (#[trigger] diagnostics[i]).ordinal == i + 1
}

/// Numbering keeps every message, in its order, with its position, code
/// and text, and numbers the list from one.
pub proof fn lemma_numbered(notes: Seq<CompilerNoteView>)
    ensures
        numbered(notes).len() == notes.len(),
        well_numbered(numbered(notes)),
        forall|i: int|
            0 <= i < notes.len() ==> {
                let diagnostic = #[trigger] numbered(notes)[i];
                &&& diagnostic.ordinal == i + 1
                &&& diagnostic.position == notes[i].position
                &&& diagnostic.code == notes[i].code
                &&& diagnostic.message == notes[i].message
            },
{
}

/// An error that a compiled script raised while it ran.
#[derive(Debug, Clone, PartialEq, Eq)]
pub struct RuntimeFailure {
    /// The interpreter's class of the error.
    pub error_type: String,
    /// What went wrong, in words.
    pub description: String,
    /// Where the script was when it failed, if the interpreter recorded it.
    pub stack_trace: Option<String>,
}

/// The mathematical content of a [`RuntimeFailure`].
pub struct RuntimeFailureView {
    pub error_type: Seq<char>,
    pub description: Seq<char>,
    pub stack_trace: Option<Seq<char>>,
}

/// The text of an optional string.
pub open spec fn optional_text(text: Option<String>) -> Option<Seq<char>> {
    match text {
        Some(t) => Some(t@),
        None => None,
    }
}

impl View for RuntimeFailure {
    type V = RuntimeFailureView;

    open spec fn view(&self) -> RuntimeFailureView {
        RuntimeFailureView {
            error_type: self.error_type@,
            description: self.description@,
            stack_trace: optional_text(self.stack_trace),
        }
    }
}

/// What the caller saw of the interpreter at work on one script. The
/// calls into the interpreter are the caller's to make: the interpreter
/// may break down or take for ever, and only the caller can stand by and
/// report that.
#[derive(Debug, Clone, PartialEq, Eq)]
pub enum InterpreterEvent {
    /// The compiler made no program of the script; these are its messages,
    /// in the order in which it reported them.
    Rejected(Vec<CompilerNote>),
    /// The script compiled and ran to its end; this is all it printed.
    Finished(String),
    /// The script compiled and raised an error while it ran.
    Failed(RuntimeFailure),
    /// The interpreter itself broke down; this is what it said.
    Aborted(String),
    /// The interpreter did not end in the time that the caller allowed it.
    TimedOut,
}

/// The mathematical content of an [`InterpreterEvent`].
pub enum InterpreterEventView {
    Rejected(Seq<CompilerNoteView>),
    Finished(Seq<char>),
    Failed(RuntimeFailureView),
    Aborted(Seq<char>),
    TimedOut,
}

/// The views of a list of compiler messages, in the list's order.
pub open spec fn notes_view(notes: Seq<CompilerNote>) -> Seq<CompilerNoteView> {
    notes.map_values(|n: CompilerNote| n@)
}

impl View for InterpreterEvent {
    type V = InterpreterEventView;

    open spec fn view(&self) -> InterpreterEventView {
        match self {
            InterpreterEvent::Rejected(notes) => InterpreterEventView::Rejected(
                notes_view(notes@),
            ),
            InterpreterEvent::Finished(output) => InterpreterEventView::Finished(output@),
            InterpreterEvent::Failed(failure) => InterpreterEventView::Failed(failure@),
            InterpreterEvent::Aborted(message) => InterpreterEventView::Aborted(message@),
            InterpreterEvent::TimedOut => InterpreterEventView::TimedOut,
        }
    }
}

/// What one run of a script came to.
#[derive(Debug, Clone, PartialEq, Eq)]
pub enum ExecutionOutcome {
    /// The script compiled and ran to its end; this is all it printed.
    Success(String),
    /// The script did not compile; these are the compiler's messages.
    CompileFailure(Vec<CompileDiagnostic>),
    /// The script compiled and then failed while it ran.
    RuntimeFailure(RuntimeFailure),
}

/// The mathematical content of an [`ExecutionOutcome`].
pub enum ExecutionOutcomeView {
    Success(Seq<char>),
    CompileFailure(Seq<CompileDiagnosticView>),
    RuntimeFailure(RuntimeFailureView),
}

impl View for ExecutionOutcome {
    type V = ExecutionOutcomeView;

    open spec fn view(&self) -> ExecutionOutcomeView {
        match self {
            ExecutionOutcome::Success(output) => ExecutionOutcomeView::Success(output@),
            ExecutionOutcome::CompileFailure(diagnostics) => ExecutionOutcomeView::CompileFailure(
                diagnostics_view(diagnostics@),
            ),
            ExecutionOutcome::RuntimeFailure(failure) => ExecutionOutcomeView::RuntimeFailure(
                failure@,
            ),
        }
    }
}

impl ExecutionOutcomeView {
    /// Whether the diagnostics of a failed compilation are numbered from one
    /// in the order of the list. The other two cases have nothing to number.
    pub open spec fn well_formed(self) -> bool {
        match self {
            ExecutionOutcomeView::CompileFailure(diagnostics) => well_numbered(diagnostics),
            _ => true,
        }
    }
}

/// The three reactions, one for each case of an outcome.
#[derive(Debug, Clone, Copy, PartialEq, Eq, Structural)]
pub enum ReactionGlyph {
    Success,
    CompileError,
    RuntimeError,
}

impl ReactionGlyph {
    /// The character that this reaction is sent as.
    pub open spec fn spec_symbol(self) -> char {
        match self {
            ReactionGlyph::Success => EMOJI_SUCCESS,
            ReactionGlyph::CompileError => EMOJI_COMPILE_ERROR,
            ReactionGlyph::RuntimeError => EMOJI_RUNTIME_ERROR,
        }
    }

    /// The character that this reaction is sent as.
    #[verifier::when_used_as_spec(spec_symbol)]
    pub fn symbol(self) -> (c: char)
        ensures
            c == self.spec_symbol(),
    {
        match self {
            ReactionGlyph::Success => EMOJI_SUCCESS,
            ReactionGlyph::CompileError => EMOJI_COMPILE_ERROR,
            ReactionGlyph::RuntimeError => EMOJI_RUNTIME_ERROR,
        }
    }
}

/// Different reactions are sent as different characters.
pub proof fn lemma_symbols_differ(a: ReactionGlyph, b: ReactionGlyph)
    requires
        a != b,
    ensures
        a.spec_symbol() != b.spec_symbol(),
{
}

/// What is sent back for one outcome.
#[derive(Debug, Clone, PartialEq, Eq)]
pub struct RenderedResponse {
    /// The reaction to attach to the message.
    pub reaction_glyph: ReactionGlyph,
    /// The text to reply with.
    pub reply_text: String,
}

/// The mathematical content of a [`RenderedResponse`].
pub struct RenderedResponseView {
    pub reaction_glyph: ReactionGlyph,
    pub reply_text: Seq<char>,
}

impl View for RenderedResponse {
    type V = RenderedResponseView;

    open spec fn view(&self) -> RenderedResponseView {
        RenderedResponseView { reaction_glyph: self.reaction_glyph, reply_text: self.reply_text@ }
    }
}

} // verus!
