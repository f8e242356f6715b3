use hex::ToHex;
use rust_sha512::find_hash;
use sha3::{Digest, Sha3_512};

#[test]
fn test_find_hash() {
    let prefixes = vec![
        "00".to_string(),
        "11".to_string(),
        "22".to_string(),
        "33".to_string(),
    ];
    let prepend = "test".to_string();

    let result = find_hash(prefixes.clone(), prepend.clone(), true);
    assert!(result.is_some());

    let (input, index) = result.unwrap();

    let mut hasher = Sha3_512::new();
    hasher.update(input.as_bytes());
    let hash = hasher.finalize().encode_hex::<String>();
    assert!(hash.starts_with(&prefixes[index]));

    let result = find_hash(prefixes, prepend, false);
    assert!(result.is_none());
}

#[test]
fn find_hash_index_in_range_and_input_prepended() {
    let prefixes = vec![
        "00".to_string(),
        "11".to_string(),
        "22".to_string(),
        "33".to_string(),
    ];
    let result = find_hash(prefixes.clone(), "test".to_string(), true);
    let (input, index) = result.unwrap();
    assert!(index <= 3);
    assert!(input.starts_with("test"));
    let rest = &input["test".len()..];
    assert!(!rest.is_empty());
    assert!(rest.chars().all(|c| c.is_ascii_digit()));
}

#[test]
fn find_hash_empty_prefix_set_returns_absence() {
    let result = find_hash(Vec::new(), "test".to_string(), true);
    assert!(result.is_none());

    let result = find_hash(Vec::new(), "test".to_string(), false);
    assert!(result.is_none());
}

#[test]
fn find_hash_dry_run_returns_absence_immediately() {
    let prefixes = vec!["00".to_string(), "11".to_string()];
    let result = find_hash(prefixes, "test".to_string(), false);
    assert!(result.is_none());
}

#[test]
fn find_hash_empty_prefix_wins_with_first_nonce() {
    let prefixes = vec!["".to_string()];
    let result = find_hash(prefixes, "x".to_string(), true);
    assert_eq!(result, Some(("x0".to_string(), 0)));
}

#[test]
fn attempt_dry_run_never_matches() {
    let mut counter = rust_sha512::NonceCounter::new();
    let r = rust_sha512::search::attempt(&mut counter, "test", "00", false);
    assert!(r.is_none());
}

#[test]
fn run_lanes_dry_run_draws_once_per_lane() {
    let mut counter = rust_sha512::NonceCounter::new();
    let prefixes = vec!["00".to_string(), "11".to_string(), "22".to_string()];
    let r = rust_sha512::search::run_lanes(&mut counter, &prefixes, "x", false);
    assert!(r.is_none());
    // Exactly three nonces were drawn, so the next candidate uses nonce 3.
    let r = rust_sha512::search::attempt(&mut counter, "x", "", true);
    assert_eq!(r, Some("x3".to_string()));
}

#[test]
fn attempt_empty_prefix_wins_immediately() {
    let mut counter = rust_sha512::NonceCounter::new();
    let r = rust_sha512::search::attempt(&mut counter, "x", "", true);
    assert_eq!(r, Some("x0".to_string()));
}

#[test]
fn find_hash_second_lane_can_win() {
    // Round-robin scheduling: a first prefix that no lowercase hex digest
    // can start with does not starve the second, always-winning lane.
    let prefixes = vec!["zz".to_string(), "".to_string()];
    let result = find_hash(prefixes, "x".to_string(), true);
    // Nonce 0 goes to lane 0 ("zz", fails), nonce 1 to lane 1 ("", wins).
    assert_eq!(result, Some(("x1".to_string(), 1)));
}
