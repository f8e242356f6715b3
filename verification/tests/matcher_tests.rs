use rust_sha512::digest::digest_hex;
#[test]
fn empty_prefix_matches_every_digest() {
    assert!(rust_sha512::matcher::matches("", ""));
    assert!(rust_sha512::matcher::matches("b751850b", ""));
    assert!(rust_sha512::matcher::matches(&digest_hex("abc"), ""));
    assert!(rust_sha512::matcher::matches(&digest_hex(""), ""));
}

#[test]
fn prefix_longer_than_digest_never_matches() {
    assert!(!rust_sha512::matcher::matches("", "0"));
    assert!(!rust_sha512::matcher::matches("ab", "abc"));
    let d = digest_hex("abc");
    let long_prefix = format!("{}{}", d, "0");
    assert!(!rust_sha512::matcher::matches(&d, &long_prefix));
}

#[test]
fn matches_compares_leading_characters_exactly() {
    assert!(rust_sha512::matcher::matches("b751850b", "b751"));
    assert!(rust_sha512::matcher::matches("b751850b", "b751850b"));
    assert!(!rust_sha512::matcher::matches("b751850b", "b752"));
    assert!(!rust_sha512::matcher::matches("b751850b", "7518"));
}

#[test]
fn matches_is_case_sensitive() {
    assert!(!rust_sha512::matcher::matches("b751850b", "B751"));
    assert!(!rust_sha512::matcher::matches("ABCD", "abcd"));
}

#[test]
fn matches_does_not_normalize_whitespace() {
    assert!(!rust_sha512::matcher::matches("b751", " b751"));
    assert!(rust_sha512::matcher::matches(" b751", " b7"));
}
