use mywm::text;

fn samples() -> Vec<&'static str> {
    vec![
        "", " ", "a", "  a  ", "a b", "\ta\u{a0}b\u{3000}\n", "foot -e  htop ", "é è\u{2003}x",
        "line one\nline two\r\n\nlast", "\n", "+12", "12", "-3", "+", "00042", "99999999999999999999999",
        "###ab", "''\"x\"''", ";;;", "a;b;",
    ]
}

#[test]
fn white_space_is_that_of_unicode() {
    for u in 0..=0x10FFFFu32 {
        if let Some(c) = char::from_u32(u) {
            assert_eq!(text::is_white(c), c.is_whitespace(), "{:x}", u);
        }
    }
}

#[test]
fn trimming_is_that_of_std() {
    for s in samples() {
        assert_eq!(text::trim(s), s.trim());
        assert_eq!(text::trim_end_matches(s, ';'), s.trim_end_matches(';'));
        assert_eq!(text::trim_start_matches(s, '#'), s.trim_start_matches('#'));
        assert_eq!(text::trim_matches(s, '\''), s.trim_matches('\''));
    }
}

#[test]
fn words_are_those_of_std() {
    for s in samples() {
        let words: Vec<String> = s.split_whitespace().map(|w| w.to_string()).collect();
        assert_eq!(text::split_whitespace(s), words);
    }
}

#[test]
fn lines_are_those_of_std() {
    for s in samples() {
        let lines: Vec<String> = s.lines().map(|l| l.trim().to_string()).collect();
        assert_eq!(text::trimmed_lines(s), lines, "{:?}", s);
    }
}

#[test]
fn searching_is_that_of_std() {
    for s in samples() {
        for t in samples() {
            assert_eq!(text::contains(s, t), s.contains(t));
            assert_eq!(text::starts_with(s, t), s.starts_with(t));
            assert_eq!(text::ends_with(s, t), s.ends_with(t));
            assert_eq!(text::strip_prefix(s, t), s.strip_prefix(t));
            assert_eq!(text::same_text(s, t), s == t);
        }
    }
}

#[test]
fn numbers_are_read_like_std_reads_them() {
    for s in samples() {
        assert_eq!(text::parse_number(s, 10, u64::MAX), s.parse::<u64>().ok(), "{:?}", s);
        assert_eq!(
            text::parse_number(s, 10, u32::MAX as u64),
            s.parse::<u32>().ok().map(|n| n as u64)
        );
    }
    assert_eq!(text::parse_number("18446744073709551615", 10, u64::MAX), Some(u64::MAX));
    assert_eq!(text::parse_number("18446744073709551616", 10, u64::MAX), None);
    assert_eq!(text::parse_number("fF", 16, 255), Some(255));
    assert_eq!(text::parse_number("100", 16, 255), None);
}

#[test]
fn numbers_are_written_and_read_back() {
    for n in [0u64, 7, 9, 10, 42, 100, 65535, 4294967296, u64::MAX] {
        let written = text::decimal_text(n);
        assert_eq!(written, n.to_string());
        assert_eq!(text::parse_number(&written, 10, u64::MAX), Some(n));
    }
}

#[test]
fn texts_are_joined_and_copied() {
    assert_eq!(text::joined("ab", "çd"), "abçd");
    assert_eq!(text::chars_of("añb"), vec!['a', 'ñ', 'b']);
    let list = vec!["x".to_string(), "y z".to_string()];
    assert_eq!(text::copy_texts(&list), list);
}
