use rantbot::render::{render_compile_failure, render_runtime_failure, render_success};
use rantbot::{
    render, CompileDiagnostic, ExecutionOutcome, ReactionGlyph, RenderedResponse, RuntimeFailure,
    EMOJI_COMPILE_ERROR, EMOJI_RUNTIME_ERROR, EMOJI_SUCCESS,
};

fn diagnostic(ordinal: usize, position: Option<(usize, usize)>, code: &str, message: &str) -> CompileDiagnostic {
    CompileDiagnostic { ordinal, position, code: code.to_string(), message: message.to_string() }
}

fn failure(error_type: &str, description: &str, stack_trace: Option<&str>) -> RuntimeFailure {
    RuntimeFailure {
        error_type: error_type.to_string(),
        description: description.to_string(),
        stack_trace: stack_trace.map(|t| t.to_string()),
    }
}

#[test]
fn glyphs_are_three_different_characters() {
    assert_eq!(EMOJI_SUCCESS, '\u{2705}');
    assert_eq!(EMOJI_COMPILE_ERROR, '\u{2753}');
    assert_eq!(EMOJI_RUNTIME_ERROR, '\u{274c}');
    assert_eq!(ReactionGlyph::Success.symbol(), EMOJI_SUCCESS);
    assert_eq!(ReactionGlyph::CompileError.symbol(), EMOJI_COMPILE_ERROR);
    assert_eq!(ReactionGlyph::RuntimeError.symbol(), EMOJI_RUNTIME_ERROR);
    assert_ne!(EMOJI_SUCCESS, EMOJI_COMPILE_ERROR);
    assert_ne!(EMOJI_SUCCESS, EMOJI_RUNTIME_ERROR);
    assert_ne!(EMOJI_COMPILE_ERROR, EMOJI_RUNTIME_ERROR);
}

#[test]
fn success_is_wrapped_in_a_plain_block() {
    let response = render(&ExecutionOutcome::Success("A".to_string()));
    assert_eq!(
        response,
        RenderedResponse { reaction_glyph: ReactionGlyph::Success, reply_text: "```\nA\n```".to_string() }
    );
    assert_eq!(render_success("two\nlines"), "```\ntwo\nlines\n```");
    assert_eq!(render_success(""), "```\n\n```");
}

#[test]
fn compile_failure_lists_every_diagnostic_in_order() {
    let diagnostics = vec![
        diagnostic(1, Some((1, 13)), "R-0002", "unclosed block; expected '}'"),
        diagnostic(2, Some((1, 2)), "R-1000", "variable 'a' is defined but never used"),
        diagnostic(3, None, "R-2100", "file not found: 'x'"),
    ];
    let response = render(&ExecutionOutcome::CompileFailure(diagnostics.clone()));
    assert_eq!(response.reaction_glyph, ReactionGlyph::CompileError);
    assert_eq!(
        response.reply_text,
        "Build failed!\n\n```\n\
         1. (1,13) R-0002: unclosed block; expected '}'\n\
         2. (1,2) R-1000: variable 'a' is defined but never used\n\
         3. (0,0) R-2100: file not found: 'x'\n\
         \n```"
    );
    assert_eq!(render_compile_failure(&diagnostics), response.reply_text);
}

#[test]
fn report_has_as_many_lines_as_diagnostics() {
    for count in [0usize, 1, 2, 9, 10, 11, 120] {
        let diagnostics: Vec<CompileDiagnostic> =
            (0..count).map(|i| diagnostic(i + 1, Some((i, 2 * i)), "R-0000", "unexpected token")).collect();
        let reply = render_compile_failure(&diagnostics);
        let body = reply.strip_prefix("Build failed!\n\n```\n").unwrap().strip_suffix("\n```").unwrap();
        let lines: Vec<&str> = body.lines().collect();
        assert_eq!(lines.len(), count);
        for (i, line) in lines.iter().enumerate() {
            assert_eq!(*line, format!("{}. ({},{}) R-0000: unexpected token", i + 1, i, 2 * i));
        }
    }
}

#[test]
fn empty_list_of_diagnostics_gives_an_empty_report() {
    assert_eq!(render_compile_failure(&Vec::new()), "Build failed!\n\n```\n\n```");
}

#[test]
fn unknown_position_is_rendered_as_zeros() {
    let reply = render_compile_failure(&vec![diagnostic(1, None, "R-0006", "unclosed string literal")]);
    assert_eq!(reply, "Build failed!\n\n```\n1. (0,0) R-0006: unclosed string literal\n\n```");
}

#[test]
fn runtime_failure_shows_type_description_and_trace() {
    let crash = failure("USER_ERROR", "boom", Some("-> [program:1:1] in main scope"));
    let response = render(&ExecutionOutcome::RuntimeFailure(crash.clone()));
    assert_eq!(response.reaction_glyph, ReactionGlyph::RuntimeError);
    assert_eq!(
        response.reply_text,
        "Crashed!\n\n```[USER_ERROR] boom\n\nstack trace:\n-> [program:1:1] in main scope```"
    );
    assert_eq!(render_runtime_failure(&crash), response.reply_text);
}

#[test]
fn missing_stack_trace_is_rendered_as_none() {
    let reply = render_runtime_failure(&failure("STACK_OVERFLOW_ERROR", "too deep", None));
    assert_eq!(reply, "Crashed!\n\n```[STACK_OVERFLOW_ERROR] too deep\n\nstack trace:\n(none)```");
}

#[test]
fn empty_stack_trace_is_not_the_placeholder() {
    let reply = render_runtime_failure(&failure("TYPE_ERROR", "", Some("")));
    assert_eq!(reply, "Crashed!\n\n```[TYPE_ERROR] \n\nstack trace:\n```");
}

#[test]
fn rendering_twice_gives_the_same_bytes() {
    let outcomes = vec![
        ExecutionOutcome::Success("\u{e9}t\u{e9}".to_string()),
        ExecutionOutcome::CompileFailure(vec![diagnostic(1, Some((3, 4)), "R-0002", "unclosed block; expected '}'")]),
        ExecutionOutcome::RuntimeFailure(failure("KEY_ERROR", "no such key", None)),
    ];
    for outcome in outcomes {
        let first = render(&outcome);
        let second = render(&outcome);
        assert_eq!(first, second);
        assert_eq!(first.reply_text.as_bytes(), second.reply_text.as_bytes());
        assert_eq!(first.reaction_glyph.symbol(), second.reaction_glyph.symbol());
    }
}

#[test]
fn rendering_shows_the_ordinal_that_the_diagnostic_carries() {
    let reply = render_compile_failure(&vec![diagnostic(7, Some((1, 1)), "R-0000", "x")]);
    assert_eq!(reply, "Build failed!\n\n```\n7. (1,1) R-0000: x\n\n```");
}
