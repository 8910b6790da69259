use prime_chain::difficulty::{adjust_difficulty, DifficultyParams};

fn start() -> DifficultyParams {
    DifficultyParams { n_limit: 1000, min_digits: 7, min_prob_bp: 100, target_time_ms: 10_000 }
}

#[test]
fn ratchet_up_on_fast_round() {
    // 3.0 s against a 10.0 s target.
    let q = adjust_difficulty(start(), 3000);
    assert_eq!(q.n_limit, 1500);
    assert_eq!(q.min_digits, 8);
    assert_eq!(q.min_prob_bp, 120); // 0.012 in ten-thousandths
    assert_eq!(q.target_time_ms, 10_000);
}

#[test]
fn ratchet_down_on_slow_round() {
    // 16.0 s against a 10.0 s target.
    let q = adjust_difficulty(start(), 16_000);
    assert_eq!(q.n_limit, 700);
    assert_eq!(q.min_digits, 7); // unchanged on the down path
    assert_eq!(q.min_prob_bp, 80); // 0.008 in ten-thousandths
    assert_eq!(q.target_time_ms, 10_000);
}

#[test]
fn unchanged_on_target_round() {
    // 10.0 s against a 10.0 s target.
    let q = adjust_difficulty(start(), 10_000);
    assert_eq!(q, start());
}

#[test]
fn thresholds_are_strict() {
    // Exactly 0.6 and 1.4 of the target change nothing.
    assert_eq!(adjust_difficulty(start(), 6000), start());
    assert_eq!(adjust_difficulty(start(), 14_000), start());
    assert_ne!(adjust_difficulty(start(), 5999), start());
    assert_ne!(adjust_difficulty(start(), 14_001), start());
}

#[test]
fn growth_is_capped() {
    let p = DifficultyParams {
        n_limit: 999_999_999,
        min_digits: 9,
        min_prob_bp: 1000,
        target_time_ms: 10_000,
    };
    let q = adjust_difficulty(p, 1000);
    assert_eq!(q.n_limit, 1_000_000_000);
    assert_eq!(q.min_digits, 9);
    assert_eq!(q.min_prob_bp, 1000);
    // Growing again stays at the caps.
    let r = adjust_difficulty(q, 1000);
    assert_eq!(r, q);
}

#[test]
fn shrinking_is_floored() {
    let p = DifficultyParams { n_limit: 120, min_digits: 2, min_prob_bp: 55, target_time_ms: 10_000 };
    let q = adjust_difficulty(p, 60_000);
    assert_eq!(q.n_limit, 100); // 84 raised to the floor
    assert_eq!(q.min_prob_bp, 50); // 44 raised to the floor
    let r = adjust_difficulty(q, 60_000);
    assert_eq!(r.n_limit, 100);
    assert_eq!(r.min_prob_bp, 50);
}

#[test]
fn validity_bounds() {
    assert!(start().is_valid());
    assert!(DifficultyParams::initial().is_valid());
    let bad_digits =
        DifficultyParams { n_limit: 1000, min_digits: 0, min_prob_bp: 100, target_time_ms: 10_000 };
    assert!(!bad_digits.is_valid());
    let huge_digits =
        DifficultyParams { n_limit: 1000, min_digits: 10, min_prob_bp: 100, target_time_ms: 10_000 };
    assert!(!huge_digits.is_valid());
    let bad_limit =
        DifficultyParams { n_limit: 0, min_digits: 7, min_prob_bp: 100, target_time_ms: 10_000 };
    assert!(!bad_limit.is_valid());
    let huge_prob =
        DifficultyParams { n_limit: 1000, min_digits: 7, min_prob_bp: 2000, target_time_ms: 10_000 };
    assert!(!huge_prob.is_valid());
}

#[test]
fn initial_parameters() {
    let p = DifficultyParams::initial();
    assert_eq!(p.n_limit, 1000);
    assert_eq!(p.min_digits, 7);
    assert_eq!(p.min_prob_bp, 100); // 0.01
    assert_eq!(p.target_time_ms, 10_000); // 10.0 s
}
