//! The adaptive difficulty controller.
//!
//! After every round the measured duration is compared with the target: a
//! round faster than 0.6 of the target hardens the search (larger factor
//! range, one more decimal digit, higher density bar), a round slower than
//! 1.4 of the target relaxes it, and anything in between leaves the
//! parameters unchanged.  Probabilities are held in ten-thousandths and
//! durations in milliseconds, so every comparison is exact integer
//! arithmetic.
//!
//! Caps and floors keep the search space alive and candidate construction
//! within a machine word: with at most `MIN_DIGITS_CAP` digits and factors at
//! most `N_LIMIT_CAP`, the combination `a*d + b*c` can never overflow, so a
//! configuration that would have to wrap is never produced.

use vstd::prelude::*;

verus! {

/// Largest allowed bound on the factors `b` and `d`.
pub const N_LIMIT_CAP: u64 = 1_000_000_000;

/// Smallest bound the down path will shrink `n_limit` to.
pub const N_LIMIT_FLOOR: u64 = 100;

/// Largest allowed decimal digit count for the factors `a` and `c`.
pub const MIN_DIGITS_CAP: u32 = 9;

/// Largest allowed density bar, in ten-thousandths (0.1).
pub const MIN_PROB_CAP_BP: u64 = 1000;

/// Smallest density bar the down path will shrink to, in ten-thousandths
/// (0.005).
pub const MIN_PROB_FLOOR_BP: u64 = 50;

/// The search parameters a mining round works under.  Workers read an
/// immutable copy at round start; the controller replaces the whole set at
/// once after the round, so no torn update is ever observable.
#[derive(Clone, Copy, PartialEq, Eq, Structural, Debug)]
pub struct DifficultyParams {
    /// Upper bound (inclusive) on the factors `b` and `d`.
    pub n_limit: u64,
    /// Decimal digit count of the factors `a` and `c`.
    pub min_digits: u32,
    /// Minimum acceptable prime-density estimate, in ten-thousandths.
    pub min_prob_bp: u64,
    /// Desired wall-clock duration of a round, in milliseconds.
    pub target_time_ms: u64,
}

impl DifficultyParams {
    /// Bounds every parameter set must stay within.
    pub open spec fn wf(self) -> bool {
        &&& 1 <= self.n_limit <= N_LIMIT_CAP
        &&& 1 <= self.min_digits <= MIN_DIGITS_CAP
        &&& 1 <= self.min_prob_bp <= MIN_PROB_CAP_BP
        &&& 1 <= self.target_time_ms
    }

    /// Runtime check of the same bounds.
    pub fn is_valid(&self) -> (r: bool)
        ensures
            r == self.wf(),
    {
        1 <= self.n_limit && self.n_limit <= N_LIMIT_CAP && 1 <= self.min_digits
            && self.min_digits <= MIN_DIGITS_CAP && 1 <= self.min_prob_bp && self.min_prob_bp
            <= MIN_PROB_CAP_BP && 1 <= self.target_time_ms
    }

    /// The parameter set a fresh node starts with.
    pub open spec fn spec_initial() -> DifficultyParams {
        DifficultyParams { n_limit: 1000, min_digits: 7, min_prob_bp: 100, target_time_ms: 10_000 }
    }

    /// The parameter set a fresh node starts with: factors `b`, `d` up to
    /// 1000, seven-digit factors `a`, `c`, a density bar of 0.01, and a
    /// ten-second target per round.
    pub fn initial() -> (p: DifficultyParams)
        ensures
            p == DifficultyParams::spec_initial(),
            p.wf(),
    {
        DifficultyParams { n_limit: 1000, min_digits: 7, min_prob_bp: 100, target_time_ms: 10_000 }
    }
}

/// A round faster than 0.6 of the target.
pub open spec fn spec_round_fast(p: DifficultyParams, duration_ms: u64) -> bool {
    (duration_ms as int) * 10 < (p.target_time_ms as int) * 6
}

/// A round slower than 1.4 of the target.
pub open spec fn spec_round_slow(p: DifficultyParams, duration_ms: u64) -> bool {
    (duration_ms as int) * 10 > (p.target_time_ms as int) * 14
}

/// The parameter set after one controller step: grow the search space by half
/// (and the digit count by one, and the density bar by a fifth) after a fast
/// round, shrink the space to 0.7 and the bar to 0.8 after a slow round, and
/// otherwise change nothing.  All growth is capped and all shrinking floored.
pub open spec fn spec_adjust(p: DifficultyParams, duration_ms: u64) -> DifficultyParams {
    if spec_round_fast(p, duration_ms) {
        (DifficultyParams {
            n_limit: if p.n_limit + p.n_limit / 2 < N_LIMIT_CAP {
                (p.n_limit + p.n_limit / 2) as u64
            } else {
                N_LIMIT_CAP
            },
            min_digits: if p.min_digits + 1 < MIN_DIGITS_CAP {
                (p.min_digits + 1) as u32
            } else {
                MIN_DIGITS_CAP
            },
            min_prob_bp: if p.min_prob_bp * 12 / 10 < MIN_PROB_CAP_BP {
                (p.min_prob_bp * 12 / 10) as u64
            } else {
                MIN_PROB_CAP_BP
            },
            target_time_ms: p.target_time_ms,
        })
    } else if spec_round_slow(p, duration_ms) {
        (DifficultyParams {
            n_limit: if p.n_limit * 7 / 10 > N_LIMIT_FLOOR {
                (p.n_limit * 7 / 10) as u64
            } else {
                N_LIMIT_FLOOR
            },
            min_digits: p.min_digits,
            min_prob_bp: if p.min_prob_bp * 8 / 10 > MIN_PROB_FLOOR_BP {
                (p.min_prob_bp * 8 / 10) as u64
            } else {
                MIN_PROB_FLOOR_BP
            },
            target_time_ms: p.target_time_ms,
        })
    } else {
        p
    }
}

/// One controller step, from the measured round duration.
pub fn adjust_difficulty(p: DifficultyParams, duration_ms: u64) -> (q: DifficultyParams)
    requires
        p.wf(),
    ensures
        q == spec_adjust(p, duration_ms),
        q.wf(),
        q.target_time_ms == p.target_time_ms,
{
    let fast: bool = (duration_ms as u128) * 10 < (p.target_time_ms as u128) * 6;
    let slow: bool = (duration_ms as u128) * 10 > (p.target_time_ms as u128) * 14;
    if fast {
        let grown: u64 = p.n_limit + p.n_limit / 2;
        let raised: u64 = p.min_prob_bp * 12 / 10;
        DifficultyParams {
            n_limit: if grown < N_LIMIT_CAP {
                grown
            } else {
                N_LIMIT_CAP
            },
            min_digits: if p.min_digits + 1 < MIN_DIGITS_CAP {
                p.min_digits + 1
            } else {
                MIN_DIGITS_CAP
            },
            min_prob_bp: if raised < MIN_PROB_CAP_BP {
                raised
            } else {
                MIN_PROB_CAP_BP
            },
            target_time_ms: p.target_time_ms,
        }
    } else if slow {
        let shrunk: u64 = p.n_limit * 7 / 10;
        let lowered: u64 = p.min_prob_bp * 8 / 10;
        DifficultyParams {
            n_limit: if shrunk > N_LIMIT_FLOOR {
                shrunk
            } else {
                N_LIMIT_FLOOR
            },
            min_digits: p.min_digits,
            min_prob_bp: if lowered > MIN_PROB_FLOOR_BP {
                lowered
            } else {
                MIN_PROB_FLOOR_BP
            },
            target_time_ms: p.target_time_ms,
        }
    } else {
        p
    }
}

} // verus!
