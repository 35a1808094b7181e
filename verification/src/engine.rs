//! The interpreter for one script, and the outcome of its work.
//!
//! The interpreter is made here, sandboxed, for one script alone. The
//! calls that compile and run the script are not made here: on some
//! scripts the interpreter breaks down, and on some it never ends. The
//! caller takes the interpreter and the script from [`prepare`], makes the
//! calls, and comes back with an [`InterpreterEvent`], which
//! [`outcome_of_event`] classifies.

use crate::outcome::{
    notes_view, numbered, numbered_note, CompileDiagnostic, CompilerNote, ExecutionOutcome,
    ExecutionOutcomeView, InterpreterEvent, InterpreterEventView,
};
use rand::Rng;
use vstd::prelude::*;
use vstd::string::*;

verus! {

/// Declares `rant::Rant`, the interpreter. Nothing of what it holds is
/// visible here: a value of it is only made and handed on.
#[verifier::external_type_specification]
#[verifier::external_body]
pub struct ExRant(rant::Rant);

/// What an interpreter is made with.
#[derive(Debug, Clone, Copy, PartialEq, Eq)]
pub struct SandboxConfig {
    /// Where the interpreter's random numbers start.
    pub seed: u64,
    /// Whether programs carry what a stack trace is made from.
    pub debug_mode: bool,
    /// Whether a script may load modules from outside itself.
    pub enable_require: bool,
}

impl SandboxConfig {
    /// Whether a script is kept from loading anything from outside itself,
    /// and a failure is traced.
    pub open spec fn is_sandboxed(self) -> bool {
        self.debug_mode && !self.enable_require
    }

    /// The configuration for one script: no module loading, stack traces
    /// on, and the given seed.
    pub open spec fn spec_sandboxed(seed: u64) -> SandboxConfig {
        SandboxConfig { seed, debug_mode: true, enable_require: false }
    }

    /// The configuration for one script: no module loading, stack traces
    /// on, and the given seed.
    #[verifier::when_used_as_spec(spec_sandboxed)]
    pub fn sandboxed(seed: u64) -> (config: SandboxConfig)
        ensures
            config == SandboxConfig::spec_sandboxed(seed),
            config.seed == seed,
            config.is_sandboxed(),
    {
        SandboxConfig { seed, debug_mode: true, enable_require: false }
    }
}

/// A script with the interpreter that was made for it. The caller compiles
/// and runs the one in the other.
#[derive(Debug)]
pub struct PreparedRun {
    /// The interpreter, sandboxed and made for this script alone.
    pub interpreter: rant::Rant,
    /// The script.
    pub source: String,
}

/// Calls `rand::thread_rng().gen()`, which draws a `u64` from the thread's
/// random number generator. Nothing is claimed of the number. The
/// generator panics where the system has no entropy to seed it with.
#[verifier::external_body]
fn fresh_seed() -> u64 {
    rand::thread_rng().gen()
}

/// The options that an interpreter was made with by
/// `rant::Rant::with_options`: its seed, its debug mode, and whether it
/// lets a script load modules.
pub uninterp spec fn interpreter_options(interpreter: rant::Rant) -> SandboxConfig;

/// Calls `rant::Rant::with_options`, with the three options of `config`
/// and the crate's defaults for the others. The interpreter is claimed to
/// be made with these three: the call keeps the options as they are given,
/// seeds its generator with the seed, takes its debug mode from the
/// options, and loads the function that loads modules only where the
/// options allow it.
#[verifier::external_body]
fn new_interpreter(config: &SandboxConfig) -> (interpreter: rant::Rant)
    ensures
        interpreter_options(interpreter) == *config,
{
    rant::Rant::with_options(
        rant::RantOptions {
            seed: config.seed,
            debug_mode: config.debug_mode,
            enable_require: config.enable_require,
            ..Default::default()
        },
    )
}

/// Makes a fresh interpreter for `src` with [`SandboxConfig::sandboxed`]
/// and the given seed, and hands both back for the caller to compile and
/// run the script. Every script is handed back as it came.
pub fn prepare_seeded(src: &str, seed: u64) -> (run: PreparedRun)
    ensures
        run.source@ == src@,
        interpreter_options(run.interpreter) == SandboxConfig::spec_sandboxed(seed),
{
    let config = SandboxConfig::sandboxed(seed);
    PreparedRun { interpreter: new_interpreter(&config), source: src.to_owned() }
}

/// Prepares `src` as [`prepare_seeded`] does, with a seed drawn anew for
/// this script. Whatever seed is drawn, the interpreter is sandboxed.
pub fn prepare(src: &str) -> (run: PreparedRun)
    ensures
        run.source@ == src@,
        interpreter_options(run.interpreter).is_sandboxed(),
{
    prepare_seeded(src, fresh_seed())
}

/// The outcome of a compilation that failed with these messages: each
/// message becomes a diagnostic that carries its place in the list,
/// counted from one. The order is kept and nothing is left out.
pub fn compile_failure(notes: &Vec<CompilerNote>) -> (outcome: ExecutionOutcome)
    ensures
        outcome@ == ExecutionOutcomeView::CompileFailure(numbered(notes_view(notes@))),
        outcome@.well_formed(),
{
    let mut diagnostics: Vec<CompileDiagnostic> = Vec::new();
    for i in 0..notes.len()
        invariant
            diagnostics@.len() == i,
            forall|j: int|
                0 <= j < i ==> (#[trigger] diagnostics@[j])@ == numbered_note(notes@[j]@, j),
    {
        let note = &notes[i];
        diagnostics.push(
            CompileDiagnostic {
                ordinal: i + 1,
                position: note.position,
                code: note.code.clone(),
                message: note.message.clone(),
            },
        );
    }
    let outcome = ExecutionOutcome::CompileFailure(diagnostics);
    assert(outcome@->CompileFailure_0 =~= numbered(notes_view(notes@)));
    outcome
}

/// The outcome that the interpreter's work came to, by what the caller saw
/// of it: a failed compilation, with the compiler's messages numbered from
/// one, where no program was made; success where the script compiled and
/// ran to its end; a runtime failure where it compiled and raised an
/// error. Work that did not end in time, or in which the interpreter
/// itself broke down, came to no outcome.
pub open spec fn outcome_of_event(event: InterpreterEventView) -> Option<ExecutionOutcomeView> {
    match event {
        InterpreterEventView::Rejected(notes) => Some(
            ExecutionOutcomeView::CompileFailure(numbered(notes)),
        ),
        InterpreterEventView::Finished(output) => Some(ExecutionOutcomeView::Success(output)),
        InterpreterEventView::Failed(failure) => Some(
            ExecutionOutcomeView::RuntimeFailure(failure),
        ),
        InterpreterEventView::Aborted(_) => None,
        InterpreterEventView::TimedOut => None,
    }
}

/// Each kind of outcome comes of its own kind of event and of no other: a
/// failed compilation of a script that the compiler rejected, success of
/// a script that compiled and ran to its end, a runtime failure of a
/// script that compiled and raised an error. There is no outcome exactly
/// where the work did not end in time or the interpreter broke down. The
/// outcome is well formed, and a failed compilation holds as many
/// diagnostics as the compiler gave messages.
pub proof fn lemma_outcome_kinds(event: InterpreterEventView)
    ensures
        outcome_of_event(event) is None <==> event is TimedOut || event is Aborted,
        outcome_of_event(event) matches Some(outcome) ==> {
            &&& outcome.well_formed()
            &&& outcome is CompileFailure <==> event is Rejected
            &&& outcome is Success <==> event is Finished
            &&& outcome is RuntimeFailure <==> event is Failed
            &&& event matches InterpreterEventView::Rejected(notes) ==> outcome
                == ExecutionOutcomeView::CompileFailure(numbered(notes)) && outcome->CompileFailure_0.len()
                == notes.len()
        },
{
}

/// The view of an outcome that may be missing.
pub open spec fn optional_outcome(outcome: Option<ExecutionOutcome>) -> Option<
    ExecutionOutcomeView,
> {
    match outcome {
        Some(o) => Some(o@),
        None => None,
    }
}

/// Classifies what the caller saw of the interpreter's work. The output of
/// a script that ran to its end is handed on whole.
pub fn run_outcome(event: InterpreterEvent) -> (outcome: Option<ExecutionOutcome>)
    ensures
        optional_outcome(outcome) == outcome_of_event(event@),
        outcome matches Some(o) ==> o@.well_formed(),
{
    match event {
        InterpreterEvent::Rejected(notes) => Some(compile_failure(&notes)),
        InterpreterEvent::Finished(output) => Some(ExecutionOutcome::Success(output)),
        InterpreterEvent::Failed(failure) => Some(ExecutionOutcome::RuntimeFailure(failure)),
        InterpreterEvent::Aborted(_) => None,
        InterpreterEvent::TimedOut => None,
    }
}

} // verus!
