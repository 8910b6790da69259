use prime_chain::primality::miller_rabin;

#[test]
fn primes_always_accepted() {
    // A genuine prime passes for every round count.
    for p in [2u64, 3, 5, 7, 11, 13, 97, 7919] {
        for k in [1u32, 2, 5, 12, 20] {
            assert!(miller_rabin(p, k), "prime {} rejected with k={}", p, k);
        }
    }
}

#[test]
fn small_and_even_inputs() {
    assert!(!miller_rabin(0, 12));
    assert!(!miller_rabin(1, 12));
    assert!(miller_rabin(2, 1));
    assert!(miller_rabin(3, 1));
    assert!(!miller_rabin(4, 1));
    assert!(!miller_rabin(100, 1));
    assert!(!miller_rabin(1_000_000_000_000, 1));
}

#[test]
fn composites_rejected_at_k12() {
    // At k = 12 the false-positive probability is at most 4^-12 per call,
    // so three hundred trials per composite should never accept.
    for c in [4u64, 9, 15, 21, 100, 561] {
        for _ in 0..300 {
            assert!(!miller_rabin(c, 12), "composite {} accepted", c);
        }
    }
}

#[test]
fn carmichael_number_rejected() {
    // 561 = 3 * 11 * 17 fools the plain Fermat test for every coprime base,
    // but not Miller-Rabin.
    for _ in 0..500 {
        assert!(!miller_rabin(561, 12));
    }
}

#[test]
fn empirical_error_rate_within_bound() {
    // One round has one-sided error at most 1/4; over 400 independent
    // trials on odd composites the acceptance count should stay within a
    // generous allowance over that bound (expected at most 100 of 400).
    let trials = 400;
    for c in [9u64, 15, 21, 561] {
        let mut accepted = 0;
        for _ in 0..trials {
            if miller_rabin(c, 1) {
                accepted += 1;
            }
        }
        assert!(
            accepted <= 160,
            "composite {} accepted {} of {} times at k=1",
            c,
            accepted,
            trials
        );
    }
}

#[test]
fn strong_pseudoprime_to_the_extreme_bases() {
    // 2047 = 23 * 89 passes the round for both base 2 and base n-2, the two
    // ends of the base range, yet fewer than an eighth of all bases are
    // liars: honestly drawn bases reject it essentially always at k = 12.
    for _ in 0..100 {
        assert!(!miller_rabin(2047, 12));
    }
}

#[test]
fn larger_primes_and_composites() {
    // Products of two primes near 10^5, against primes of similar size.
    assert!(miller_rabin(99991, 12));
    assert!(miller_rabin(104729, 12));
    assert!(!miller_rabin(99991 * 3, 12));
    for _ in 0..100 {
        assert!(!miller_rabin(99991u64 * 104729, 12));
    }
}
