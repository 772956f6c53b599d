use synaptic::text::{chars_of, is_white_space, same_chars, same_text, trimmed};

#[test]
fn white_space_is_what_the_standard_library_calls_it() {
    let mut count = 0;
    for code in 0..=0x10FFFFu32 {
        if let Some(c) = char::from_u32(code) {
            assert_eq!(is_white_space(c), c.is_whitespace(), "U+{code:04X}");
            if is_white_space(c) {
                count += 1;
            }
        }
    }
    assert_eq!(count, 25);
}

#[test]
fn trimming_agrees_with_the_standard_library() {
    for text in [
        "",
        " ",
        "  v20.11.0\n",
        "\t\r\n x y \u{3000}",
        "no-space",
        " inner  space kept ",
        "\u{85}\u{A0}a\u{2028}b\u{205F}",
        "\u{200B}zero-width is kept\u{200B}",
        "\n\n\n",
        "a",
        " a",
        "a ",
    ] {
        assert_eq!(trimmed(text), text.trim(), "{text:?}");
    }
}

#[test]
fn strings_are_taken_apart_by_character() {
    assert_eq!(chars_of("aé\u{3000}"), vec!['a', 'é', '\u{3000}']);
    assert!(chars_of("").is_empty());
    assert!(same_chars(&vec!['a', 'b'], "ab"));
    assert!(!same_chars(&vec!['a', 'b'], "abc"));
    assert!(!same_chars(&vec!['a', 'b'], "aB"));
    assert!(same_text("", ""));
    assert!(same_text("ü", "ü"));
    assert!(!same_text("a", "b"));
}
