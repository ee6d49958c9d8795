use zoekt_mcp::text::{char_is_space, chars_of, push_chars, push_decimal, split_lines, trimmed_len};

fn decimal_of(n: u128) -> String {
    let mut out = String::new();
    push_decimal(&mut out, n);
    out
}

fn lines_of(s: &str) -> Vec<String> {
    split_lines(&chars_of(s))
        .into_iter()
        .map(|l| l.into_iter().collect())
        .collect()
}

fn trimmed(s: &str) -> String {
    let chars = chars_of(s);
    let n = trimmed_len(&chars);
    chars[..n].iter().collect()
}

#[test]
fn decimal_of_small_and_large_numbers() {
    assert_eq!(decimal_of(0), "0");
    assert_eq!(decimal_of(7), "7");
    assert_eq!(decimal_of(10), "10");
    assert_eq!(decimal_of(42), "42");
    assert_eq!(decimal_of(1_048_576), "1048576");
    assert_eq!(decimal_of(u64::MAX as u128), "18446744073709551615");
    assert_eq!(decimal_of(u128::MAX), u128::MAX.to_string());
}

#[test]
fn decimal_is_appended_to_what_is_there() {
    let mut out = String::from("n=");
    push_decimal(&mut out, 305);
    assert_eq!(out, "n=305");
}

#[test]
fn chars_of_keeps_every_character() {
    assert_eq!(chars_of(""), Vec::<char>::new());
    assert_eq!(chars_of("a—b"), vec!['a', '—', 'b']);
}

#[test]
fn push_chars_appends_the_range() {
    let v = chars_of("abcdef");
    let mut out = String::from(">");
    push_chars(&mut out, &v, 2, 5);
    assert_eq!(out, ">cde");
    push_chars(&mut out, &v, 3, 3);
    assert_eq!(out, ">cde");
}

#[test]
fn split_lines_of_plain_text() {
    assert_eq!(lines_of("a\nb\nc"), vec!["a", "b", "c"]);
    assert_eq!(lines_of("a\nb\n"), vec!["a", "b"]);
    assert_eq!(lines_of(""), Vec::<String>::new());
    assert_eq!(lines_of("\n"), vec![""]);
    assert_eq!(lines_of("a\n\nb"), vec!["a", "", "b"]);
    assert_eq!(lines_of("  indented\tline  "), vec!["  indented\tline  "]);
}

#[test]
fn split_lines_drops_carriage_return_before_line_feed_only() {
    assert_eq!(lines_of("a\r\nb\r\n"), vec!["a", "b"]);
    assert_eq!(lines_of("a\r\nb\r"), vec!["a", "b\r"]);
    assert_eq!(lines_of("a\rb\n"), vec!["a\rb"]);
    assert_eq!(lines_of("\r\n"), vec![""]);
    assert_eq!(lines_of("a\r\r\n"), vec!["a\r"]);
}

#[test]
fn split_lines_agrees_with_std() {
    let samples = [
        "", "\n", "\r", "\r\n", "\n\n", "x", "x\n", "x\r\n", "x\ny", "x\r\ny\r", "\nx", "a\n\n\nb\n\n",
        "fn main() {\n    println!(\"hi\");\n}\n", "é\nü\r\n—",
    ];
    for s in samples {
        let expected: Vec<String> = s.lines().map(|l| l.to_string()).collect();
        assert_eq!(lines_of(s), expected, "for {:?}", s);
    }
}

#[test]
fn trimmed_len_drops_trailing_white_space() {
    assert_eq!(trimmed("abc  \t\r\n"), "abc");
    assert_eq!(trimmed("  abc"), "  abc");
    assert_eq!(trimmed("a b "), "a b");
    assert_eq!(trimmed("   "), "");
    assert_eq!(trimmed(""), "");
    assert_eq!(trimmed("x\u{a0}\u{3000}"), "x");
}

#[test]
fn char_is_space_agrees_with_std() {
    let mut n: u32 = 0;
    while n <= 0x10ffff {
        if let Some(c) = char::from_u32(n) {
            assert_eq!(char_is_space(c), c.is_whitespace(), "for U+{:04X}", n);
        }
        n += 1;
    }
}
