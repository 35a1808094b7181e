use rantbot::handler::bound_outcome;
use rantbot::{
    accept_message, conclude_process, conclude_run, decode_response, encode_response,
    handle_message, prepare_seeded, presence_status, respond,
    CompileDiagnostic, CompilerNote, ExecutionOutcome, InterpreterEvent, MessageStep,
    PreparedRun, ReactionGlyph, RenderedResponse, RuntimeFailure,
    EMOJI_COMPILE_ERROR, EMOJI_RUNTIME_ERROR, EMOJI_SUCCESS,
};

/// Has the interpreter compile and run a script, as a caller of the
/// library does.
fn interpret(prepared: PreparedRun) -> InterpreterEvent {
    let PreparedRun { mut interpreter, source } = prepared;
    let mut messages: Vec<rant::compiler::CompilerMessage> = Vec::new();
    let program = match interpreter.compile(&source, &mut messages) {
        Ok(program) => program,
        Err(_) => {
            return InterpreterEvent::Rejected(
                messages
                    .iter()
                    .map(|m| CompilerNote {
                        position: m.pos().map(|p| (p.line(), p.col())),
                        code: m.code().to_string(),
                        message: m.message(),
                    })
                    .collect(),
            )
        }
    };
    match interpreter.run_into_string(&program) {
        Ok(output) => InterpreterEvent::Finished(output),
        Err(error) => InterpreterEvent::Failed(RuntimeFailure {
            error_type: error.error_type.to_string(),
            description: error.description,
            stack_trace: error.stack_trace,
        }),
    }
}

/// Takes a message through every step, as a caller of the library does.
fn answer(author_is_bot: bool, content: &str) -> Option<RenderedResponse> {
    match handle_message(author_is_bot, content) {
        MessageStep::Ignore => None,
        MessageStep::Interpret(prepared) => Some(conclude_run(interpret(prepared))),
    }
}

#[test]
fn message_of_a_bot_is_never_answered() {
    for content in ["```rantbot\n{A|B}\n```", "```rantbot\n[A|B]\n```", "hello", "", "```rantbot\n{"] {
        assert_eq!(accept_message(true, content), None);
        assert!(matches!(handle_message(true, content), MessageStep::Ignore));
    }
}

#[test]
fn message_of_a_person_is_answered_where_it_holds_a_block() {
    assert_eq!(accept_message(false, "```rantbot\n{A|B}\n```"), Some("{A|B}".to_string()));
    assert_eq!(accept_message(false, "no block"), None);
    assert!(matches!(handle_message(false, "no block"), MessageStep::Ignore));
    assert!(matches!(handle_message(false, "```rantbot\n{A|B}"), MessageStep::Ignore));
    assert!(matches!(handle_message(false, "```rantbot\n{A|B}\n```"), MessageStep::Interpret(_)));
    assert!(matches!(handle_message(false, "```rantbot\n{A|B\n```"), MessageStep::Interpret(_)));
}

#[test]
fn block_with_branches_is_answered_with_one_of_them() {
    for _ in 0..16 {
        let response = answer(false, "```rantbot\n{A|B}\n```").unwrap();
        assert_eq!(response.reaction_glyph, ReactionGlyph::Success);
        assert_eq!(response.reaction_glyph.symbol(), EMOJI_SUCCESS);
        assert!(
            response.reply_text == "```\nA\n```" || response.reply_text == "```\nB\n```",
            "{:?}",
            response.reply_text
        );
    }
}

#[test]
fn seeded_run_of_a_block_with_branches_succeeds() {
    let source = accept_message(false, "```rantbot\n{A|B}\n```").unwrap();
    let event = interpret(prepare_seeded(&source, 0));
    assert_eq!(event, InterpreterEvent::Finished("A".to_string()));
    assert_eq!(
        conclude_run(event),
        RenderedResponse { reaction_glyph: ReactionGlyph::Success, reply_text: "```\nA\n```".to_string() }
    );
}

#[test]
fn unterminated_script_is_answered_with_the_build_report() {
    let response = answer(false, "```rantbot\n{A|B\n```").unwrap();
    assert_eq!(response.reaction_glyph, ReactionGlyph::CompileError);
    assert_eq!(response.reaction_glyph.symbol(), EMOJI_COMPILE_ERROR);
    assert_eq!(
        response.reply_text,
        "Build failed!\n\n```\n1. (1,1) R-0002: unclosed block; expected '}'\n\n```"
    );
}

#[test]
fn branches_in_brackets_are_answered_with_the_build_report() {
    let response = answer(false, "```rantbot\n[A|B]\n```").unwrap();
    assert_eq!(response.reaction_glyph, ReactionGlyph::CompileError);
    assert_eq!(response.reply_text, "Build failed!\n\n```\n1. (1,3) R-0000: unexpected token: '|'\n\n```");
}

#[test]
fn failing_script_is_answered_with_the_crash_report() {
    let response = answer(false, "```rantbot\n[error:boom]\n```").unwrap();
    assert_eq!(response.reaction_glyph, ReactionGlyph::RuntimeError);
    assert_eq!(
        response.reply_text,
        "Crashed!\n\n```[USER_ERROR] boom\n\nstack trace:\n-> [program:1:1] in native call\n-> [program:1:1] in main scope```"
    );
}

#[test]
fn long_output_is_cut_before_it_is_rendered() {
    let response = answer(false, "```rantbot\n[rep:3000]{x}\n```").unwrap();
    assert_eq!(response.reaction_glyph, ReactionGlyph::Success);
    assert_eq!(response.reply_text, format!("```\n{}\n```", "x".repeat(1900)));
}

#[test]
fn response_cuts_only_the_output_of_a_success() {
    let long = "y".repeat(2500);
    assert_eq!(respond(ExecutionOutcome::Success(long.clone())).reply_text, format!("```\n{}\n```", "y".repeat(1900)));
    let crash = RuntimeFailure { error_type: "USER_ERROR".to_string(), description: long.clone(), stack_trace: None };
    assert_eq!(
        respond(ExecutionOutcome::RuntimeFailure(crash)).reply_text,
        format!("Crashed!\n\n```[USER_ERROR] {}\n\nstack trace:\n(none)```", long)
    );
    let diagnostics = vec![CompileDiagnostic { ordinal: 1, position: None, code: "R-0000".to_string(), message: long.clone() }];
    assert_eq!(
        respond(ExecutionOutcome::CompileFailure(diagnostics)).reply_text,
        format!("Build failed!\n\n```\n1. (0,0) R-0000: {}\n\n```", long)
    );
}

#[test]
fn outcome_is_bounded_to_the_given_size() {
    assert_eq!(
        bound_outcome(ExecutionOutcome::Success("h\u{e9}llo".to_string()), 2),
        ExecutionOutcome::Success("h".to_string())
    );
    assert_eq!(
        bound_outcome(ExecutionOutcome::Success("h\u{e9}llo".to_string()), 3),
        ExecutionOutcome::Success("h\u{e9}".to_string())
    );
    let failure = ExecutionOutcome::CompileFailure(Vec::new());
    assert_eq!(bound_outcome(failure.clone(), 0), failure);
}

#[test]
fn responding_twice_gives_the_same_response() {
    let outcome = ExecutionOutcome::Success("z".repeat(1905));
    assert_eq!(respond(outcome.clone()), respond(outcome));
}

#[test]
fn status_names_language_and_build() {
    assert_eq!(presence_status("4.0", "4.0.0-alpha.21"), "Rant 4.0 (4.0.0-alpha.21)");
    assert_eq!(presence_status("", ""), "Rant  ()");
}

#[test]
fn run_out_of_time_is_answered_with_a_timeout() {
    let response = conclude_run(InterpreterEvent::TimedOut);
    assert_eq!(
        response,
        RenderedResponse { reaction_glyph: ReactionGlyph::RuntimeError, reply_text: "Timed out!".to_string() }
    );
    assert_eq!(response.reaction_glyph.symbol(), EMOJI_RUNTIME_ERROR);
}

#[test]
fn broken_interpreter_is_answered_with_what_it_said() {
    let response = conclude_run(InterpreterEvent::Aborted("attempt to divide with overflow".to_string()));
    assert_eq!(response.reaction_glyph, ReactionGlyph::RuntimeError);
    assert_eq!(response.reply_text, "Broke down!\n\n```\nattempt to divide with overflow\n```");
    assert_eq!(conclude_run(InterpreterEvent::Aborted(String::new())).reply_text, "Broke down!\n\n```\n\n```");
}

#[test]
fn long_words_of_a_broken_interpreter_are_cut_to_size() {
    let said = format!("{}\u{e9}nd", "s".repeat(1899));
    let response = conclude_run(InterpreterEvent::Aborted(said));
    assert_eq!(response.reply_text, format!("Broke down!\n\n```\n{}\n```", "s".repeat(1899)));
}

#[test]
fn finished_run_is_answered_with_its_output_cut_to_size() {
    assert_eq!(conclude_run(InterpreterEvent::Finished("A".to_string())).reply_text, "```\nA\n```");
    assert_eq!(
        conclude_run(InterpreterEvent::Finished("w".repeat(2000))).reply_text,
        format!("```\n{}\n```", "w".repeat(1900))
    );
}

#[test]
fn script_with_many_brackets_is_handed_back_like_any_other() {
    let script = "[a:".repeat(400);
    let message = format!("```rantbot\n{}\n```", script);
    match handle_message(false, &message) {
        MessageStep::Interpret(prepared) => {
            assert_eq!(prepared.source, script);
            assert!(!prepared.interpreter.has_global("require"));
        }
        other => panic!("{:?}", other),
    }
}

#[test]
fn accepted_script_is_handed_back_as_it_was_found() {
    match handle_message(false, "see ```rantbot\n  {A|B} \n``` here") {
        MessageStep::Interpret(prepared) => {
            assert_eq!(prepared.source, "{A|B}");
            assert!(!prepared.interpreter.has_global("require"));
            assert!(prepared.interpreter.has_global("rep"));
        }
        other => panic!("{:?}", other),
    }
}

#[test]
fn rejected_script_is_answered_with_the_build_report() {
    let notes = vec![CompilerNote { position: Some((2, 5)), code: "R-0000".to_string(), message: "unexpected token: '|'".to_string() }];
    let response = conclude_run(InterpreterEvent::Rejected(notes));
    assert_eq!(response.reaction_glyph, ReactionGlyph::CompileError);
    assert_eq!(response.reply_text, "Build failed!\n\n```\n1. (2,5) R-0000: unexpected token: '|'\n\n```");
}

#[test]
fn response_written_as_text_is_read_back() {
    let responses = vec![
        RenderedResponse { reaction_glyph: ReactionGlyph::Success, reply_text: "```\nA\n```".to_string() },
        RenderedResponse { reaction_glyph: ReactionGlyph::CompileError, reply_text: String::new() },
        RenderedResponse { reaction_glyph: ReactionGlyph::RuntimeError, reply_text: "\u{274c}\u{e9}".to_string() },
        conclude_run(InterpreterEvent::TimedOut),
    ];
    for response in responses {
        let text = encode_response(&response);
        assert_eq!(text, format!("{}{}", response.reaction_glyph.symbol(), response.reply_text));
        assert_eq!(decode_response(&text), Some(response));
    }
    assert_eq!(encode_response(&conclude_run(InterpreterEvent::TimedOut)), "\u{274c}Timed out!");
}

#[test]
fn text_that_is_no_response_is_not_read() {
    assert_eq!(decode_response(""), None);
    assert_eq!(decode_response("ok"), None);
    assert_eq!(decode_response(" \u{2705}"), None);
    assert_eq!(
        decode_response("\u{2705}"),
        Some(RenderedResponse { reaction_glyph: ReactionGlyph::Success, reply_text: String::new() })
    );
}

#[test]
fn process_that_ended_well_is_answered_with_what_it_printed() {
    assert_eq!(
        conclude_process(true, "\u{2753}Build failed!", "warning: unused"),
        RenderedResponse { reaction_glyph: ReactionGlyph::CompileError, reply_text: "Build failed!".to_string() }
    );
}

#[test]
fn process_that_ended_badly_is_answered_with_its_complaint() {
    let crashed = conclude_run(InterpreterEvent::Aborted("stack overflow".to_string()));
    assert_eq!(conclude_process(false, "\u{2705}```\nA\n```", "stack overflow"), crashed);
    assert_eq!(conclude_process(false, "", "stack overflow"), crashed);
    assert_eq!(conclude_process(true, "", "stack overflow"), crashed);
    assert_eq!(conclude_process(true, "garbled", "stack overflow"), crashed);
    assert_eq!(crashed.reply_text, "Broke down!\n\n```\nstack overflow\n```");
}
