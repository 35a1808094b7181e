use rantbot::{bound_output, MAX_OUTPUT_SIZE};

/// Drops characters from the end until the text fits.
fn popped(text: &str, max: usize) -> String {
    let mut kept = text.to_string();
    while kept.len() > max {
        kept.pop();
    }
    kept
}

#[test]
fn limit_is_nineteen_hundred_bytes() {
    assert_eq!(MAX_OUTPUT_SIZE, 1900);
}

#[test]
fn short_output_is_left_as_it_is() {
    assert_eq!(bound_output("hello".to_string(), 1900), "hello");
    assert_eq!(bound_output(String::new(), 1900), "");
    assert_eq!(bound_output(String::new(), 0), "");
}

#[test]
fn output_of_exactly_the_limit_is_left_as_it_is() {
    let text = "a".repeat(1900);
    assert_eq!(bound_output(text.clone(), 1900), text);
}

#[test]
fn long_ascii_output_is_cut_to_exactly_the_limit() {
    let text = "ab".repeat(1000);
    let kept = bound_output(text.clone(), 1900);
    assert_eq!(kept.len(), 1900);
    assert_eq!(kept, text[..1900]);
    let kept = bound_output("a".repeat(1901), 1900);
    assert_eq!(kept, "a".repeat(1900));
}

#[test]
fn character_across_the_limit_is_dropped_whole() {
    let text = format!("{}\u{e9}b", "a".repeat(1899));
    assert_eq!(text.len(), 1902);
    let kept = bound_output(text, 1900);
    assert_eq!(kept, "a".repeat(1899));
    assert_eq!(bound_output("\u{1f642}\u{1f642}".to_string(), 7), "\u{1f642}");
    assert_eq!(bound_output("\u{1f642}\u{1f642}".to_string(), 5), "\u{1f642}");
    assert_eq!(bound_output("\u{1f642}\u{1f642}".to_string(), 4), "\u{1f642}");
    assert_eq!(bound_output("\u{1f642}\u{1f642}".to_string(), 3), "");
    assert_eq!(bound_output("\u{1f642}\u{1f642}".to_string(), 8), "\u{1f642}\u{1f642}");
}

#[test]
fn character_that_ends_on_the_limit_is_kept() {
    let text = format!("{}\u{e9}b", "a".repeat(1898));
    let kept = bound_output(text, 1900);
    assert_eq!(kept.len(), 1900);
    assert_eq!(kept, format!("{}\u{e9}", "a".repeat(1898)));
}

#[test]
fn nothing_fits_a_limit_of_zero() {
    assert_eq!(bound_output("abc".to_string(), 0), "");
    assert_eq!(bound_output("\u{e9}".to_string(), 0), "");
    assert_eq!(bound_output("\u{e9}".to_string(), 1), "");
    assert_eq!(bound_output("\u{e9}".to_string(), 2), "\u{e9}");
}

#[test]
fn bounding_is_dropping_characters_until_the_text_fits() {
    let samples = [
        "",
        "plain ascii text",
        "\u{e9}t\u{e9} \u{20ac}uro \u{1f642} end",
        "\u{1f642}\u{1f642}\u{1f642}",
        "a\u{80}\u{7ff}\u{800}\u{ffff}\u{10000}\u{10ffff}z",
        "\u{d7ff}\u{e000}",
    ];
    for text in samples {
        for max in 0..text.len() + 3 {
            let kept = bound_output(text.to_string(), max);
            assert_eq!(kept, popped(text, max), "{:?} at {}", text, max);
            assert!(kept.len() <= max);
            assert!(text.starts_with(&kept));
            assert!(text.is_char_boundary(kept.len()));
        }
    }
}

#[test]
fn bounding_twice_is_bounding_once() {
    let text = "\u{e9}t\u{e9} \u{20ac}uro \u{1f642} end";
    for max in 0..text.len() + 1 {
        let once = bound_output(text.to_string(), max);
        assert_eq!(bound_output(once.clone(), max), once);
    }
}
