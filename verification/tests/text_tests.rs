use outlook_cli::text::{split_and_trim, trim_str, u64_to_string};

#[test]
fn splits_and_trims_comma_list() {
    let out = split_and_trim("a, b,c");
    assert_eq!(out, vec!["a".to_string(), "b".to_string(), "c".to_string()]);
}

#[test]
fn split_preserves_order_and_duplicates() {
    let out = split_and_trim("x, y , x");
    assert_eq!(out, vec!["x".to_string(), "y".to_string(), "x".to_string()]);
}

#[test]
fn split_keeps_empty_pieces() {
    let out = split_and_trim("a,");
    assert_eq!(out, vec!["a".to_string(), "".to_string()]);
    let out = split_and_trim(",b");
    assert_eq!(out, vec!["".to_string(), "b".to_string()]);
    let out = split_and_trim("a,, b");
    assert_eq!(out, vec!["a".to_string(), "".to_string(), "b".to_string()]);
}

#[test]
fn split_of_empty_string_is_one_empty_piece() {
    let out = split_and_trim("");
    assert_eq!(out, vec!["".to_string()]);
}

#[test]
fn split_single_token_trims_whitespace() {
    let out = split_and_trim("  hello@example.com  ");
    assert_eq!(out, vec!["hello@example.com".to_string()]);
}

#[test]
fn trim_removes_surrounding_whitespace_only() {
    assert_eq!(trim_str("  a b \t"), "a b".to_string());
    assert_eq!(trim_str(""), "".to_string());
    assert_eq!(trim_str("   "), "".to_string());
    assert_eq!(trim_str("xy"), "xy".to_string());
}

#[test]
fn trim_matches_unicode_whitespace() {
    assert_eq!(trim_str("\u{a0}x\u{a0}"), "x".to_string());
    assert_eq!(trim_str("\u{3000}y\u{2009}"), "y".to_string());
    assert_eq!(trim_str("a\u{a0}b"), "a\u{a0}b".to_string());
}

#[test]
fn split_trims_unicode_whitespace_around_tokens() {
    let out = split_and_trim("a\u{3000},\tb");
    assert_eq!(out, vec!["a".to_string(), "b".to_string()]);
}

#[test]
fn formats_decimal_numbers() {
    assert_eq!(u64_to_string(0), "0".to_string());
    assert_eq!(u64_to_string(7), "7".to_string());
    assert_eq!(u64_to_string(10), "10".to_string());
    assert_eq!(u64_to_string(12345), "12345".to_string());
    assert_eq!(u64_to_string(u64::MAX), "18446744073709551615".to_string());
}
