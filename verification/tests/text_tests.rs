use txtdot::config::parse_unsigned;
use txtdot::text::{
    decimal_string, difference_string, is_blank, join_chars, last_path_segment, split_chars,
    str_eq, whitespace_split,
};

fn strings(parts: Vec<Vec<char>>) -> Vec<String> {
    parts.into_iter().map(|p| p.into_iter().collect()).collect()
}

#[test]
fn decimal_notation() {
    assert_eq!(decimal_string(0), "0");
    assert_eq!(decimal_string(7), "7");
    assert_eq!(decimal_string(1280), "1280");
    assert_eq!(decimal_string(u64::MAX), u64::MAX.to_string());
    assert_eq!(difference_string(10, 3), "7");
    assert_eq!(difference_string(3, 10), "-7");
    assert_eq!(difference_string(5, 5), "0");
}

#[test]
fn decimal_notation_parses_back() {
    for n in [0u64, 9, 10, 65535, 123456789] {
        assert_eq!(parse_unsigned(&decimal_string(n), u64::MAX), Some(n));
    }
}

#[test]
fn splitting_matches_std() {
    for s in ["", "a", "a,b", ",", "a,,b,", "x y, z"] {
        let cs: Vec<char> = s.chars().collect();
        let expected: Vec<String> = s.split(',').map(str::to_string).collect();
        assert_eq!(strings(split_chars(&cs, ',')), expected);
    }
    for s in ["", "  ", " a  b\tc\n", "one", "\u{3000}x\u{2003}y "] {
        let cs: Vec<char> = s.chars().collect();
        let expected: Vec<String> = s.split_whitespace().map(str::to_string).collect();
        assert_eq!(strings(whitespace_split(&cs)), expected);
    }
}

#[test]
fn joining_and_segments() {
    let parts = vec![vec!['a'], vec![], vec!['b', 'c']];
    assert_eq!(join_chars(&parts, ", "), "a, , bc");
    assert_eq!(join_chars(&Vec::new(), ", "), "");
    let seg: String = last_path_segment("text/html").into_iter().collect();
    assert_eq!(seg, "html");
    let seg: String = last_path_segment("plain").into_iter().collect();
    assert_eq!(seg, "plain");
    let seg: String = last_path_segment("a/").into_iter().collect();
    assert_eq!(seg, "");
}

#[test]
fn blank_and_equal() {
    assert!(is_blank(""));
    assert!(is_blank(" \n\t\u{a0}"));
    assert!(!is_blank(" x "));
    assert!(str_eq("abc", "abc"));
    assert!(!str_eq("abc", "abd"));
}
