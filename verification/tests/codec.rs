use tenderly_client::codec::{encode_wei, parse_hex_u128, parse_hex_u64};

#[test]
fn test_encode_wei_exact_values() {
    assert_eq!(encode_wei(0), "0x0");
    assert_eq!(encode_wei(1), "0x1");
    assert_eq!(encode_wei(15), "0xf");
    assert_eq!(encode_wei(16), "0x10");
    assert_eq!(encode_wei(255), "0xff");
    assert_eq!(encode_wei(1_000_000_000_000_000_000), "0xde0b6b3a7640000");
}

#[test]
fn test_encode_wei_no_leading_zeros() {
    let s = encode_wei(4096);
    assert_eq!(s, "0x1000");
    assert!(!s.starts_with("0x0"));
}

#[test]
fn test_parse_round_trip() {
    for w in [0u128, 1, 9, 10, 15, 16, 255, 4096, 1_000_000_000_000_000_000, u128::MAX] {
        let s = encode_wei(w);
        assert_eq!(parse_hex_u128(&s), Some(w));
    }
}

#[test]
fn test_parse_accepts_uppercase_digits() {
    assert_eq!(parse_hex_u128("0xFF"), Some(255));
    assert_eq!(parse_hex_u128("0xDe0B6b3a7640000"), Some(1_000_000_000_000_000_000));
}

#[test]
fn test_parse_rejects_malformed_input() {
    assert_eq!(parse_hex_u128(""), None);
    assert_eq!(parse_hex_u128("0x"), None);
    assert_eq!(parse_hex_u128("123"), None);
    assert_eq!(parse_hex_u128("x123"), None);
    assert_eq!(parse_hex_u128("0xzz"), None);
    assert_eq!(parse_hex_u128("0x12g4"), None);
}

#[test]
fn test_parse_rejects_overflow() {
    // One digit past the largest u128 value.
    assert_eq!(parse_hex_u128("0x100000000000000000000000000000000"), None);
    assert_eq!(
        parse_hex_u128("0xffffffffffffffffffffffffffffffff"),
        Some(u128::MAX)
    );
}

#[test]
fn test_parse_u64_block_numbers() {
    assert_eq!(parse_hex_u64("0x170abab"), Some(0x170abab));
    assert_eq!(parse_hex_u64("0x0"), Some(0));
    assert_eq!(parse_hex_u64("0xffffffffffffffff"), Some(u64::MAX));
    assert_eq!(parse_hex_u64("0x10000000000000000"), None);
    assert_eq!(parse_hex_u64("0x"), None);
}
