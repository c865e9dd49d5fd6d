use tama::text::{decimal_text, parse_u32, join_strings, lines_of, starts_with_str, trim_str};

#[test]
fn lines_like_str_lines() {
    for s in ["", "a", "a\n", "a\r\nb", "\n", "a\n\nb\n", "x\ry\r", "a\r"] {
        let expected: Vec<String> = s.lines().map(|l| l.to_string()).collect();
        assert_eq!(lines_of(s), expected, "input {:?}", s);
    }
}

#[test]
fn trim_like_str_trim() {
    for s in ["", "  a ", "\u{3000}x\t", "a b"] {
        assert_eq!(trim_str(s), s.trim());
    }
}

#[test]
fn decimal_like_to_string() {
    for n in [0u64, 7, 10, 99, 100, 12345, u64::MAX] {
        assert_eq!(decimal_text(n), n.to_string());
    }
}

#[test]
fn join_and_prefix() {
    assert_eq!(join_strings(&vec!["a".to_string(), "b".to_string()], ", "), "a, b");
    assert_eq!(join_strings(&vec![], ", "), "");
    assert!(starts_with_str("DONE: ok", "DONE"));
    assert!(!starts_with_str("DON", "DONE"));
}

#[test]
fn parse_u32_like_std() {
    for s in ["0", "42", "+7", "4294967295", "4294967296", "", "+", "-1", " 1", "1a", "007"] {
        assert_eq!(parse_u32(s), s.parse::<u32>().ok(), "input {:?}", s);
    }
}

