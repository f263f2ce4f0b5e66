use wauth::error::TotpError;
use wauth::totp::{code_from_digest, format_code, step_counter, truncate, Totp};

fn hex(s: &str) -> Vec<u8> {
    (0..s.len() / 2)
        .map(|i| u8::from_str_radix(&s[2 * i..2 * i + 2], 16).unwrap())
        .collect()
}

// Base32 of the ASCII key "12345678901234567890".
const RFC_SECRET: &str = "GEZDGNBVGY3TQOJQGEZDGNBVGY3TQOJQ";

#[test]
fn rfc6238_vector_at_59() {
    let totp = Totp::new(RFC_SECRET.to_string());
    assert_eq!(totp.generate_code(59).unwrap(), "287082");
}

#[test]
fn rfc6238_vector_at_1111111109() {
    let totp = Totp::new(RFC_SECRET.to_string());
    assert_eq!(totp.generate_code(1111111109).unwrap(), "081804");
}

#[test]
fn rfc6238_more_vectors() {
    let totp = Totp::new(RFC_SECRET.to_string());
    assert_eq!(totp.generate_code(1111111111).unwrap(), "050471");
    assert_eq!(totp.generate_code(1234567890).unwrap(), "005924");
    assert_eq!(totp.generate_code(2000000000).unwrap(), "279037");
    assert_eq!(totp.generate_code(20000000000).unwrap(), "353130");
}

#[test]
fn same_step_gives_same_code() {
    let totp = Totp::new(RFC_SECRET.to_string());
    let a = totp.generate_code(60).unwrap();
    let b = totp.generate_code(89).unwrap();
    let c = totp.generate_code(89).unwrap();
    assert_eq!(a, b);
    assert_eq!(b, c);
    assert_eq!(a.len(), 6);
    assert_ne!(totp.generate_code(59).unwrap(), a);
}

#[test]
fn invalid_base32_secret_is_rejected() {
    let totp = Totp::new("not base32!".to_string());
    assert_eq!(totp.generate_code(59), Err(TotpError::InvalidSecret));
    let lower = Totp::new("gezdgnbvgy3tqojq".to_string());
    assert_eq!(lower.generate_code(59), Err(TotpError::InvalidSecret));
}

#[test]
fn remaining_seconds_window() {
    assert_eq!(Totp::remaining_seconds(0), 30);
    assert_eq!(Totp::remaining_seconds(1), 29);
    assert_eq!(Totp::remaining_seconds(29), 1);
    assert_eq!(Totp::remaining_seconds(59), 1);
    assert_eq!(Totp::remaining_seconds(60), 30);
    assert_eq!(Totp::remaining_seconds(u64::MAX), 30 - (u64::MAX % 30));
    for t in 0..200u64 {
        let r = Totp::remaining_seconds(t);
        assert!((1..=30).contains(&r));
        assert_eq!(r == 30, t % 30 == 0);
    }
}

#[test]
fn counter_is_big_endian_step() {
    assert_eq!(step_counter(59), [0, 0, 0, 0, 0, 0, 0, 1]);
    assert_eq!(step_counter(1111111109), 37037036u64.to_be_bytes());
    assert_eq!(step_counter(29), [0; 8]);
}

#[test]
fn truncation_of_rfc4226_example() {
    let d = hex("1f8698690e02ca16618550ef7f19da8e945b555a");
    assert_eq!(truncate(&d), 0x50ef7f19);
    assert_eq!(code_from_digest(&d), "872921");
}

#[test]
fn truncation_masks_top_bit() {
    let mut d = vec![0xffu8; 20];
    d[19] = 0xf0;
    assert_eq!(truncate(&d), 0x7fffffff);
}

#[test]
fn codes_from_rfc4226_digests() {
    assert_eq!(code_from_digest(&hex("cc93cf18508d94934c64b65d8ba7667fb7cde4b0")), "755224");
    assert_eq!(code_from_digest(&hex("75a48a19d4cbe100644e8ac1397eea747a2d33ab")), "287082");
}

#[test]
fn codes_are_zero_padded() {
    assert_eq!(format_code(7), "000007");
    assert_eq!(format_code(0), "000000");
    assert_eq!(format_code(999999), "999999");
    assert_eq!(format_code(81804), "081804");
}
