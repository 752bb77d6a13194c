use amp::digest::sha256_hex_of;
use amp::text::{
    append_signed_decimal, chars_of, decimal_chars, join_parts, remove_occurrences,
    replace_char_with, split_whitespace, string_of, strip_prefix, trim, trim_matches_char,
    trim_start_matches_str,
};

fn s(v: &Vec<char>) -> String {
    string_of(v)
}

#[test]
fn sha256_hex_of_known_values() {
    assert_eq!(
        sha256_hex_of(""),
        "e3b0c44298fc1c149afbf4c8996fb92427ae41e4649b934ca495991b7852b855"
    );
    assert_eq!(
        sha256_hex_of("abc"),
        "ba7816bf8f01cfea414140de5dae2223b00361a396177a9cb410ff61f20015ad"
    );
}

#[test]
fn words_are_split_on_whitespace() {
    let ws = split_whitespace(&chars_of("  a bb\n\tccc  "));
    let ws: Vec<String> = ws.iter().map(|w| s(w)).collect();
    assert_eq!(ws, vec!["a", "bb", "ccc"]);
    assert!(split_whitespace(&chars_of(" \n ")).is_empty());
}

#[test]
fn trimming() {
    assert_eq!(s(&trim(&chars_of("  x y \n"))), "x y");
    assert_eq!(s(&trim_matches_char(&chars_of("``id``"), '`')), "id");
    assert_eq!(s(&trim_start_matches_str(&chars_of("abababc"), &chars_of("ab"))), "c");
}

#[test]
fn prefixes_and_replacements() {
    assert_eq!(strip_prefix(&chars_of("run:1"), &chars_of("run:")).map(|v| s(&v)), Some("1".to_string()));
    assert!(strip_prefix(&chars_of("x"), &chars_of("run:")).is_none());
    assert_eq!(s(&replace_char_with(&chars_of("a'b'"), '\'', &chars_of("\\'"))), "a\\'b\\'");
    assert_eq!(s(&remove_occurrences(&chars_of("a--b--c"), &chars_of("--"))), "abc");
}

#[test]
fn joining_and_numbers() {
    let parts = vec![chars_of("a"), chars_of("b"), chars_of("c")];
    assert_eq!(s(&join_parts(&parts, &chars_of(", "))), "a, b, c");
    assert_eq!(s(&join_parts(&Vec::new(), &chars_of(", "))), "");
    assert_eq!(s(&decimal_chars(0)), "0");
    assert_eq!(s(&decimal_chars(18446744073709551615)), "18446744073709551615");
    let mut v = chars_of("t=");
    append_signed_decimal(&mut v, i64::MIN);
    assert_eq!(s(&v), "t=-9223372036854775808");
}

#[test]
fn empty_patterns_leave_text_unchanged() {
    let s: Vec<char> = "aab".chars().collect();
    let empty: Vec<char> = Vec::new();
    assert_eq!(amp::text::trim_start_matches_str(&s, &empty), s);
    assert_eq!(amp::text::remove_occurrences(&s, &empty), s);
    let a: Vec<char> = vec!['a'];
    assert_eq!(amp::text::trim_start_matches_str(&s, &a), vec!['b']);
    assert_eq!(amp::text::remove_occurrences(&s, &a), vec!['b']);
    assert_eq!("aab".trim_start_matches(""), "aab");
    assert_eq!("aab".replace("", ""), "aab");
}
