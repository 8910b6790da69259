use prime_chain::heuristic::{density_micro, has_small_factor, ln_milli, prime_heuristic};
use prime_chain::arith::bitlen;

#[test]
fn trial_division_spares_the_small_primes_themselves() {
    for p in [2u64, 3, 5, 7, 11, 13, 17, 19, 23, 29, 31, 37, 41, 43, 47] {
        assert!(!has_small_factor(p), "{} flagged as having a small factor", p);
    }
    for c in [4u64, 6, 9, 15, 21, 100, 561, 7919 * 3] {
        assert!(has_small_factor(c), "{} has a small factor", c);
    }
    // No small prime divides these.
    assert!(!has_small_factor(53 * 59));
    assert!(!has_small_factor(7919));
}

#[test]
fn log_estimate_values() {
    // 693 thousandths of ln(2) per binary digit.
    assert_eq!(ln_milli(1), 693);
    assert_eq!(ln_milli(2), 1386);
    assert_eq!(ln_milli(7919), 693 * 13); // 7919 has 13 binary digits
    assert_eq!(ln_milli(u64::MAX), 693 * 64);
}

#[test]
fn density_estimate_values() {
    assert_eq!(density_micro(2), 1_000_000_000 / 1386); // ~0.7215
    assert_eq!(density_micro(7919), 1_000_000_000 / 9009); // ~0.111
    for n in [2u64, 90, 7919, u64::MAX] {
        assert_eq!(density_micro(n), 1_000_000_000 / (693 * bitlen(n) as u64));
    }
}

#[test]
fn filter_decisions() {
    // Below 2: never.
    assert!(!prime_heuristic(0, 100));
    assert!(!prime_heuristic(1, 100));
    // Small factors: rejected whatever the bar.
    assert!(!prime_heuristic(90, 100));
    assert!(!prime_heuristic(561, 100));
    // A prime with enough density passes a 0.01 bar.
    assert!(prime_heuristic(7919, 100)); // 100 * 9009 <= 10^7
    assert!(prime_heuristic(2, 1000));
    // At the highest bar (0.1) a 64-bit number is too sparse.
    assert!(!prime_heuristic(u64::MAX - 58, 1000)); // 1000 * 44352 > 10^7
}
