use site_management::argon2::{hash_argon2, utf8_len};
use site_management::random::rand_str;
use site_management::text::{decimal_string, push_decimal, starts_with, to_ascii_uppercase, to_hex_upper};

#[test]
fn hex_encoding_of_bytes() {
    assert_eq!(to_hex_upper(&[0xbe, 0x0f]), "BE0F");
    assert_eq!(to_hex_upper(&[0x00, 0x01, 0xab, 0xff]), "0001ABFF");
    assert_eq!(to_hex_upper(&[]), "");
}

#[test]
fn hex_encoding_matches_format() {
    let bytes: Vec<u8> = (0..=255u8).collect();
    let expected: String = bytes.iter().map(|b| format!("{:02X}", b)).collect();
    assert_eq!(to_hex_upper(&bytes), expected);
}

#[test]
fn decimal_of_integers() {
    assert_eq!(decimal_string(0), "0");
    assert_eq!(decimal_string(42), "42");
    assert_eq!(decimal_string(-7), "-7");
    assert_eq!(decimal_string(i32::MAX), "2147483647");
    assert_eq!(decimal_string(i32::MIN), "-2147483648");
    let mut s = String::from("/manage/");
    push_decimal(&mut s, 1905);
    assert_eq!(s, "/manage/1905");
}

#[test]
fn ascii_uppercase() {
    assert_eq!(to_ascii_uppercase("abcXYZ09"), "ABCXYZ09");
    assert_eq!(to_ascii_uppercase("é-ß"), "é-ß");
}

#[test]
fn prefixes() {
    assert!(starts_with("/auth", "/auth"));
    assert!(starts_with("/auth/x", "/auth"));
    assert!(!starts_with("/aut", "/auth"));
    assert!(!starts_with("/manage", "/auth"));
    assert!(starts_with("anything", ""));
}

#[test]
fn random_strings() {
    let s = rand_str(64);
    assert_eq!(s.chars().count(), 64);
    assert!(s.chars().all(|c| c.is_ascii_alphanumeric()));
    assert_eq!(rand_str(0), "");
}

#[test]
fn utf8_lengths() {
    assert_eq!(utf8_len("abc"), 3);
    assert_eq!(utf8_len("é"), 2);
}

#[test]
fn argon2_hash_form() {
    let hash = hash_argon2("slurp", "SALTSALTSALT");
    assert_eq!(hash.len(), 64);
    assert!(hash.chars().all(|c| c.is_ascii_digit() || ('A'..='F').contains(&c)));
    assert_eq!(hash, hash_argon2("slurp", "SALTSALTSALT"));
    assert_ne!(hash, hash_argon2("slurp", "SALTSALTSALU"));
    assert_ne!(hash, hash_argon2("slurq", "SALTSALTSALT"));
}

#[test]
fn argon2_hash_is_hex_of_digest() {
    let digest = argon2rs::argon2i_simple("password", "somesalt");
    let expected: String = digest.iter().map(|b| format!("{:02X}", b)).collect();
    assert_eq!(hash_argon2("password", "somesalt"), expected);
}
