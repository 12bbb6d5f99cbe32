use codex_support::text::{
    char_is_whitespace, join_text, first_nonblank_line, str_chars, str_is_blank, str_lines,
    trim_str,
};

#[test]
fn trim_matches_std() {
    for s in [
        "",
        " ",
        "abc",
        "  abc  ",
        "\t\n a b \r\n",
        "\u{3000}wide\u{2029}",
        "\u{85}x\u{a0}",
        "\u{200b}zero width\u{200b}",
        "é  ",
    ] {
        assert_eq!(s.trim(), trim_str(s), "{s:?}");
        assert_eq!(s.trim().is_empty(), str_is_blank(s), "{s:?}");
    }
}

#[test]
fn whitespace_matches_std() {
    for u in 0u32..0x3100 {
        if let Some(c) = char::from_u32(u) {
            assert_eq!(c.is_whitespace(), char_is_whitespace(c), "{u:#x}");
        }
    }
}

#[test]
fn lines_match_std() {
    for s in [
        "",
        "\n",
        "a",
        "a\n",
        "a\nb",
        "a\r\nb\r\n",
        "a\r",
        "\r\n",
        "a\n\nb\n\n",
        "x\ry\nz",
    ] {
        let expected: Vec<String> = s.lines().map(str::to_string).collect();
        assert_eq!(expected, str_lines(s), "{s:?}");
    }
}

#[test]
fn chars_and_concat() {
    assert_eq!(vec!['h', 'é', '!'], str_chars("hé!"));
    assert_eq!("ab", join_text("a", "b"));
    assert_eq!("", join_text("", ""));
    assert_eq!("   second", first_nonblank_line("\n \n   second\nthird"));
}
