use prime_chain::arith::{bitlen, decimal_digits, gcd, mod_pow, pow10};
use prime_chain::hex::hex_string;

#[test]
fn gcd_values() {
    assert_eq!(gcd(12, 18), 6);
    assert_eq!(gcd(18, 12), 6);
    assert_eq!(gcd(17, 31), 1);
    assert_eq!(gcd(0, 5), 5);
    assert_eq!(gcd(5, 0), 5);
    assert_eq!(gcd(0, 0), 0);
    assert_eq!(gcd(1, 1), 1);
    assert_eq!(gcd(7919 * 3, 7919 * 5), 7919);
}

#[test]
fn mod_pow_values() {
    assert_eq!(mod_pow(2, 10, 1000), 24);
    assert_eq!(mod_pow(3, 0, 7), 1);
    assert_eq!(mod_pow(5, 117, 19), 1);
    assert_eq!(mod_pow(5, 116, 19), 4);
    assert_eq!(mod_pow(6, 8, 13), 3);
    assert_eq!(mod_pow(123456789, 987654321, 1000000007), 652541198);
}

#[test]
fn mod_pow_large_base_no_overflow() {
    // The squaring step uses 128-bit intermediates, so a modulus near the
    // top of the 64-bit range must not wrap.
    let m: u64 = u64::MAX - 58; // 2^64 - 59, a prime
    let r = mod_pow(m - 1, 2, m);
    assert_eq!(r, 1); // (-1)^2 == 1 (mod m)
}

#[test]
fn pow10_values() {
    assert_eq!(pow10(0), 1);
    assert_eq!(pow10(1), 10);
    assert_eq!(pow10(3), 1000);
    assert_eq!(pow10(9), 1_000_000_000);
    assert_eq!(pow10(19), 10_000_000_000_000_000_000);
}

#[test]
fn decimal_digits_values() {
    assert_eq!(decimal_digits(0), 1);
    assert_eq!(decimal_digits(9), 1);
    assert_eq!(decimal_digits(10), 2);
    assert_eq!(decimal_digits(7919), 4);
    assert_eq!(decimal_digits(u64::MAX), 20);
    assert_eq!(decimal_digits(1_234_567), 1_234_567u64.to_string().len() as u32);
}

#[test]
fn bitlen_values() {
    assert_eq!(bitlen(0), 0);
    assert_eq!(bitlen(1), 1);
    assert_eq!(bitlen(2), 2);
    assert_eq!(bitlen(255), 8);
    assert_eq!(bitlen(256), 9);
    assert_eq!(bitlen(u64::MAX), 64);
}

#[test]
fn hex_string_values() {
    assert_eq!(hex_string(0), "0");
    assert_eq!(hex_string(26), "1a");
    assert_eq!(hex_string(255), "ff");
    assert_eq!(hex_string(4096), "1000");
    assert_eq!(hex_string(u64::MAX), "ffffffffffffffff");
}

#[test]
fn hex_string_matches_formatter() {
    for x in [0u64, 1, 15, 16, 17, 300, 7919, 123_456_789, u64::MAX / 3] {
        assert_eq!(hex_string(x), format!("{:x}", x));
    }
}
