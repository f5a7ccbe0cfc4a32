use property_defs_rs::sql::{text_array_fits, utf8_len_within_i32};
use property_defs_rs::text::{char_is_whitespace, parse_bool, parse_i32, split_on, str_eq, trim};

fn strings(v: &[&str]) -> Vec<String> {
    v.iter().map(|s| s.to_string()).collect()
}

#[test]
fn str_eq_compares_characters() {
    assert!(str_eq("event", "event"));
    assert!(!str_eq("event", "Event"));
    assert!(!str_eq("event", "events"));
    assert!(str_eq("", ""));
}

#[test]
fn parse_bool_accepts_only_true_and_false() {
    assert_eq!(parse_bool("true"), Some(true));
    assert_eq!(parse_bool("false"), Some(false));
    assert_eq!(parse_bool("True"), None);
    assert_eq!(parse_bool("1"), None);
    assert_eq!(parse_bool(""), None);
    assert_eq!(parse_bool(" true"), None);
}

#[test]
fn parse_i32_follows_std() {
    for s in [
        "0", "42", "-7", "+5", "0007", "2147483647", "-2147483648", "2147483648", "-2147483649",
        "", "-", "+", "12a", " 1", "1 ", "1_000", "99999999999999999999", "--1", "+-1",
    ] {
        assert_eq!(parse_i32(s), s.parse::<i32>().ok(), "input {:?}", s);
    }
    assert_eq!(parse_i32("-2147483648"), Some(i32::MIN));
    assert_eq!(parse_i32("2147483648"), None);
}

#[test]
fn split_on_keeps_empty_pieces() {
    assert_eq!(split_on("a  b", ' '), strings(&["a", "", "b"]));
    assert_eq!(split_on("", ','), strings(&[""]));
    assert_eq!(split_on(",", ','), strings(&["", ""]));
    assert_eq!(split_on("x,y,z", ','), strings(&["x", "y", "z"]));
    assert_eq!(split_on("héllo wörld", ' '), strings(&["héllo", "wörld"]));
}

#[test]
fn split_on_matches_std_split() {
    for s in ["", "a", " a ", "a  b  c", ",,", "one,two,,three,"] {
        for sep in [' ', ','] {
            let expected: Vec<String> = s.split(sep).map(|p| p.to_string()).collect();
            assert_eq!(split_on(s, sep), expected);
        }
    }
}

#[test]
fn trim_removes_unicode_whitespace() {
    assert_eq!(trim(" \tx y\n "), "x y");
    assert_eq!(trim(""), "");
    assert_eq!(trim("   "), "");
    assert_eq!(trim("\u{A0}x\u{2003}"), "x");
    assert_eq!(trim("abc"), "abc");
}

#[test]
fn trim_is_idempotent_on_examples() {
    for s in ["  a b  ", "\n\t", "x", " \u{A0} y \u{3000}"] {
        assert_eq!(trim(&trim(s)), trim(s));
        assert_eq!(trim(s), s.trim());
    }
}

#[test]
fn utf8_length_counts_bytes() {
    assert_eq!(utf8_len_within_i32("hello"), Some(5));
    assert_eq!(utf8_len_within_i32("héllo"), Some(6));
    assert_eq!(utf8_len_within_i32("€"), Some(3));
    assert_eq!(utf8_len_within_i32("😀"), Some(4));
    assert_eq!(utf8_len_within_i32(""), Some(0));
}

#[test]
fn small_text_arrays_fit() {
    assert!(text_array_fits(&Vec::new()));
    assert!(text_array_fits(&strings(&["a", "b"])));
}

#[test]
fn split_then_join_gives_back_the_text() {
    for s in ["", "a,b", ",a,,b,", "no separator", "héllo,wörld"] {
        let pieces = split_on(s, ',');
        assert_eq!(pieces.join(","), s);
        assert_eq!(pieces.len(), s.matches(',').count() + 1);
        assert!(pieces.iter().all(|p| !p.contains(',')));
    }
}

#[test]
fn whitespace_matches_std() {
    for v in 0u32..0x3100 {
        if let Some(c) = char::from_u32(v) {
            assert_eq!(char_is_whitespace(c), c.is_whitespace(), "U+{:04X}", v);
        }
    }
    for c in ['\u{FEFF}', '\u{200B}', '\u{10FFFF}', 'x'] {
        assert_eq!(char_is_whitespace(c), c.is_whitespace());
    }
}
