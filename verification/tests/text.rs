use crusty::text::is_blank;
use crusty::text::{
    is_white_space_char, join_strings, parse_u64, trim_str, u64_to_string, IntParseError,
};

#[test]
fn whitespace_matches_std() {
    for u in 0u32..0x3100 {
        if let Some(c) = char::from_u32(u) {
            assert_eq!(is_white_space_char(c), c.is_whitespace(), "char {:#x}", u);
        }
    }
    assert!(!is_white_space_char('\u{feff}'));
}

#[test]
fn trim_matches_std() {
    for s in ["", "  ", " a b ", "\u{2003}x\u{85}", "\t\n x", "y"] {
        assert_eq!(trim_str(s), s.trim());
    }
}

#[test]
fn decimal_and_parse() {
    for n in [0u64, 7, 10, 8000, 20128, u64::MAX] {
        assert_eq!(u64_to_string(n), n.to_string());
        assert_eq!(parse_u64(&n.to_string()), Ok(n));
    }
    assert_eq!(parse_u64(""), Err(IntParseError::Empty));
    assert_eq!(parse_u64("+"), Err(IntParseError::InvalidDigit));
    assert_eq!(parse_u64("18446744073709551616"), Err(IntParseError::PosOverflow));
}

#[test]
fn joins() {
    let v = vec!["a".to_string(), "b".to_string(), "c".to_string()];
    assert_eq!(join_strings(&v, ", "), "a, b, c");
    assert_eq!(join_strings(&vec![], ", "), "");
    assert_eq!(join_strings(&vec!["x".to_string()], "-"), "x");
}

#[test]
fn blank_texts() {
    assert!(is_blank(""));
    assert!(is_blank(" \t\n"));
    assert!(!is_blank(" a "));
}
