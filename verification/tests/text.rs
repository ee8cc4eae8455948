use agent_browser::text::{
    between, blank, chars_of, joined, lines_of, pair, push_decimal, push_left, push_right,
    push_signed, spell, trimmed,
};

fn decimal(n: u64) -> String {
    let mut out = String::from("n");
    push_decimal(&mut out, n);
    out
}

fn signed(n: i64) -> String {
    let mut out = String::new();
    push_signed(&mut out, n);
    out
}

#[test]
fn blanks_are_the_white_space_of_unicode() {
    for n in 0..=0x10ffffu32 {
        if let Some(c) = char::from_u32(n) {
            assert_eq!(blank(c), c.is_whitespace(), "U+{:04X}", n);
        }
    }
}

#[test]
fn trims_as_the_standard_library_does() {
    for s in [
        "", " ", "a", "  a b  ", "\t\n a\u{a0}", "\u{2003}x\u{3000}", "\u{200b}x", "\r\n", "é ✓ ",
    ] {
        assert_eq!(trimmed(s), s.trim());
    }
}

#[test]
fn splits_lines_as_the_standard_library_does() {
    for s in [
        "", "\n", "\r\n", "\r", "a", "a\n", "a\nb", "a\r\nb\r\n", "a\n\nb", "a\r", "a\r\r\nb",
        "\n\n", "é\n✓\r\n", "x\ry\nz",
    ] {
        let expected: Vec<String> = s.lines().map(|l| l.to_string()).collect();
        assert_eq!(lines_of(s), expected);
    }
}

#[test]
fn numbers_are_written_in_decimal() {
    assert_eq!(decimal(0), "n0");
    assert_eq!(decimal(9), "n9");
    assert_eq!(decimal(10), "n10");
    assert_eq!(decimal(907), "n907");
    assert_eq!(decimal(u64::MAX), "n18446744073709551615");
    assert_eq!(signed(-1), "-1");
    assert_eq!(signed(0), "0");
    assert_eq!(signed(i64::MIN), "-9223372036854775808");
    assert_eq!(signed(i64::MAX), "9223372036854775807");
}

#[test]
fn different_numbers_are_written_differently() {
    let mut seen: Vec<String> = Vec::new();
    for n in 0..1200u64 {
        let d = decimal(n);
        assert!(!seen.contains(&d));
        seen.push(d);
    }
}

#[test]
fn columns_count_characters() {
    let mut out = String::new();
    push_right(&mut out, "…", 4);
    push_left(&mut out, "GET", 6);
    push_left(&mut out, "longer than it", 6);
    push_right(&mut out, "12345", 4);
    assert_eq!(out, "   …GET   longer than it12345");
}

#[test]
fn texts_are_put_together() {
    assert_eq!(joined(&Vec::new(), ", "), "");
    assert_eq!(joined(&vec!["a".to_string()], ", "), "a");
    assert_eq!(joined(&vec!["a".to_string(), "b".to_string(), "c".to_string()], ", "), "a, b, c");
    assert_eq!(between("<", "x", ">"), "<x>");
    assert_eq!(pair("a ", "1", " b ", "2"), "a 1 b 2");
    let chars = chars_of("añb");
    assert_eq!(chars, vec!['a', 'ñ', 'b']);
    assert_eq!(spell(&chars, 1, 3), "ñb");
}

#[test]
fn a_line_put_behind_becomes_the_last_line() {
    assert_eq!(lines_of("a\n\nb\n"), ["a", "", "b"]);
    assert_eq!(lines_of("a\n\nb\nc\r\n"), ["a", "", "b", "c"]);
    assert_eq!(lines_of("c\n"), ["c"]);
}
