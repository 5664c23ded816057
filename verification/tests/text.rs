use media_capture::text::{
    clean_content, collapse_whitespace, has_keyword, is_digit, is_whitespace, remove_label,
    strip_nul, to_chars, trim, try_remove_label,
};

#[test]
fn test_clean_input() {
    let inputs = [
        "FIGURE 1. This is a\t test\n\nwith multiple lines",
        "table 2. Another test\x00 with null",
        "Some text \t\n without       label",
    ];
    let cleaned = [
        "This is a test with multiple lines",
        "Another test with null",
        "Some text without label",
    ];

    assert_eq!(cleaned, inputs.map(clean_content));
}

#[test]
fn whitespace_agrees_with_the_standard_library_on_every_character() {
    let mut n: u32 = 0;
    while n <= 0x10FFFF {
        if let Some(c) = char::from_u32(n) {
            assert_eq!(is_whitespace(c), c.is_whitespace(), "U+{:04X}", n);
            assert_eq!(is_digit(c), c.is_ascii_digit(), "U+{:04X}", n);
        }
        n += 1;
    }
}

#[test]
fn keyword_matches_without_regard_to_ascii_case() {
    let s: Vec<char> = "a FiGuRe".chars().collect();
    let figure: Vec<char> = "figure".chars().collect();
    assert!(has_keyword(&s, 2, &figure));
    assert!(!has_keyword(&s, 1, &figure));
    assert!(!has_keyword(&s, 3, &figure));
    assert!(!has_keyword(&s, 9, &figure));
    let kelvin: Vec<char> = "\u{212A}".chars().collect();
    let k: Vec<char> = "k".chars().collect();
    assert!(!has_keyword(&kelvin, 0, &k));
}

#[test]
fn label_ends_behind_its_full_stop() {
    let s = to_chars("see Table \u{2003} 12.x");
    assert_eq!(try_remove_label(&s, 4), Some(15));
    assert_eq!(try_remove_label(&s, 0), None);
    assert_eq!(try_remove_label(&s, 5), None);
    assert_eq!(try_remove_label(&s, 40), None);
}

#[test]
fn label_needs_whitespace_digits_and_a_full_stop() {
    assert_eq!(try_remove_label(&to_chars("figure"), 0), None);
    assert_eq!(try_remove_label(&to_chars("figure1."), 0), None);
    assert_eq!(try_remove_label(&to_chars("figure ."), 0), None);
    assert_eq!(try_remove_label(&to_chars("figure 1"), 0), None);
    assert_eq!(try_remove_label(&to_chars("figure 1,"), 0), None);
    assert_eq!(try_remove_label(&to_chars("figure x1."), 0), None);
    assert_eq!(try_remove_label(&to_chars("figure 1."), 0), Some(9));
    assert_eq!(try_remove_label(&to_chars("TABLE\t\n007.rest"), 0), Some(11));
    assert_eq!(try_remove_label(&to_chars("tables 1."), 0), None);
}

#[test]
fn labels_are_removed_wherever_they_stand() {
    assert_eq!(remove_label("a figure 1. b table 22.c"), "a  b c");
    assert_eq!(remove_label("figure 1.figure 2."), "");
    assert_eq!(remove_label("figure one."), "figure one.");
    assert_eq!(remove_label("\u{e9}t\u{e9} Figure 3. \u{fc}"), "\u{e9}t\u{e9}  \u{fc}");
    assert_eq!(remove_label(""), "");
}

#[test]
fn whitespace_runs_collapse_to_one_space() {
    assert_eq!(collapse_whitespace("a \t\n b"), "a b");
    assert_eq!(collapse_whitespace("\n\na\u{3000}\u{a0}"), " a ");
    assert_eq!(collapse_whitespace("\tb"), " b");
    assert_eq!(collapse_whitespace("abc"), "abc");
    assert_eq!(collapse_whitespace(""), "");
}

#[test]
fn nul_characters_are_dropped() {
    assert_eq!(strip_nul("\x00a\x00\x00b\x00"), "ab");
    assert_eq!(strip_nul("\x00"), "");
    assert_eq!(strip_nul("plain"), "plain");
}

#[test]
fn trim_removes_both_ends_only() {
    assert_eq!(trim("  a  b \u{2028}"), "a  b");
    assert_eq!(trim(" \t\n"), "");
    assert_eq!(trim(""), "");
    assert_eq!(trim("x"), "x");
    for s in ["  a  b \u{2028}", " \t\n", "", "x", "\u{85}y\u{1680}"] {
        assert_eq!(trim(s), s.trim());
    }
}

#[test]
fn cleaning_handles_the_edges() {
    assert_eq!(clean_content(""), "");
    assert_eq!(clean_content("\x00 \x00"), "");
    assert_eq!(clean_content("fig\x00ure 1. kept"), "kept");
    assert_eq!(clean_content("Table\n\n9.\nx"), "x");
    assert_eq!(clean_content("intro figure 10. end"), "intro  end");
    assert_eq!(clean_content("figure 10 . end"), "figure 10 . end");
}
