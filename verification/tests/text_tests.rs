use chat_core::text::{has_suffix, trim};

#[test]
fn trim_removes_white_space_at_both_ends() {
    assert_eq!(trim(" hi "), "hi");
    assert_eq!(trim("hi"), "hi");
    assert_eq!(trim("\t hi there\r\n"), "hi there");
    assert_eq!(trim("  a  b  "), "a  b");
}

#[test]
fn trim_of_blank_text_is_empty() {
    assert_eq!(trim(""), "");
    assert_eq!(trim("   "), "");
    assert_eq!(trim("\n\t \r"), "");
}

#[test]
fn trim_knows_unicode_white_space() {
    assert_eq!(trim("\u{3000}x\u{a0}"), "x");
    assert_eq!(trim("\u{2003}\u{e9}t\u{e9}\u{2028}"), "\u{e9}t\u{e9}");
    assert_eq!(trim("\u{200b}x"), "\u{200b}x");
}

#[test]
fn trim_agrees_with_std() {
    let samples = [
        "", " ", "a", " a", "a ", " a ", "\u{85}a\u{1680}", "  \u{4f60} \u{597d}  ", "\u{feff}a",
        "\u{b}\u{c}middle\u{2029}", "no-space", " \u{1F600} ",
    ];
    for sample in samples {
        assert_eq!(trim(sample), sample.trim());
    }
}

#[test]
fn suffix_is_compared_character_by_character() {
    assert!(has_suffix("hello", "llo"));
    assert!(has_suffix("hello", "hello"));
    assert!(has_suffix("hello", ""));
    assert!(has_suffix("", ""));
    assert!(!has_suffix("", "a"));
    assert!(!has_suffix("hello", "hell"));
    assert!(!has_suffix("lo", "hello"));
    assert!(has_suffix("na\u{ef}ve", "\u{ef}ve"));
    assert!(!has_suffix("naive", "\u{ef}ve"));
}
