//! A chat-triggered relay for Rant scripts.
//!
//! A message that carries a fenced block tagged `rantbot` has the block's
//! text compiled and run by a sandboxed Rant interpreter. What came of it
//! is classified as one of three outcomes and rendered as a reaction glyph
//! and a reply text.
//!
//! The library decides and the caller acts. [`handle_message`] takes a
//! message up to the work of the interpreter and says what to do next; the
//! caller has the interpreter compile and run the script, which may break
//! it down or never end, and comes back to [`conclude_run`] with what it
//! saw. Delivering the reaction and the reply is the caller's too.

pub mod bound;
pub mod engine;
pub mod handler;
pub mod outcome;
pub mod render;
pub mod text;
pub mod trigger;
pub mod wire;

pub use crate::bound::{bound_output, MAX_OUTPUT_SIZE};
pub use crate::engine::{prepare, prepare_seeded, run_outcome, PreparedRun, SandboxConfig};
pub use crate::handler::{
    accept_message, conclude_run, handle_message, presence_status, respond, MessageStep,
};
pub use crate::outcome::{
    CompileDiagnostic, CompilerNote, ExecutionOutcome, InterpreterEvent, ReactionGlyph,
    RenderedResponse, RuntimeFailure, EMOJI_COMPILE_ERROR, EMOJI_RUNTIME_ERROR, EMOJI_SUCCESS,
};
pub use crate::render::render;
pub use crate::trigger::{extract_source, TriggerMatch};
pub use crate::wire::{conclude_process, decode_response, encode_response};
