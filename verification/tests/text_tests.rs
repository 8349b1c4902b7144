use transcriber::text::{
    contains_ignore_ascii_case, contains_text, decimal_text, is_white_space_char, replace_text,
    same_text, trim_text,
};

#[test]
fn substring_search() {
    assert!(contains_text("end of stream reached", "end of stream"));
    assert!(!contains_text("End Of Stream", "end of stream"));
    assert!(contains_text("abc", ""));
    assert!(!contains_text("ab", "abc"));
    assert!(contains_ignore_ascii_case("OpenAI/Whisper", "whisper"));
    assert!(!contains_ignore_ascii_case("whisp", "whisper"));
}

#[test]
fn replacement_is_left_to_right_without_overlap() {
    assert_eq!(replace_text("a.m4a", ".m4a", ".txt"), "a.txt");
    assert_eq!(replace_text("a.m4a.m4a", ".m4a", ".txt"), "a.txt.txt");
    assert_eq!(replace_text("aaa", "aa", "b"), "ba");
    assert_eq!(replace_text("none", ".m4a", ".txt"), "none");
    assert_eq!(replace_text("", ".m4a", ".txt"), "");
}

#[test]
fn decimal_rendering() {
    assert_eq!(decimal_text(0), "0");
    assert_eq!(decimal_text(7), "7");
    assert_eq!(decimal_text(1234), "1234");
    assert_eq!(decimal_text(u64::MAX), u64::MAX.to_string());
}

#[test]
fn text_equality() {
    assert!(same_text("abc", "abc"));
    assert!(!same_text("abc", "abd"));
}

#[test]
fn trimming_matches_str_trim() {
    let samples = [
        "  hello world \n",
        "\u{3000}\u{85}text\u{2009}",
        "   ",
        "",
        "x",
        "\t a b \r\n",
        "\u{200b}zero width stays\u{200b}",
    ];
    for s in samples {
        assert_eq!(trim_text(s), s.trim(), "trimming {:?}", s);
        assert_eq!(trim_text(&trim_text(s)), trim_text(s));
    }
    assert_eq!(trim_text("  hello world \n"), "hello world");
}

#[test]
fn white_space_is_the_unicode_property() {
    for code in 0u32..0x3100 {
        if let Some(c) = char::from_u32(code) {
            assert_eq!(is_white_space_char(c), c.is_whitespace(), "code {:#x}", code);
        }
    }
}
