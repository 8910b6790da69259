//! The mining worker: draw a four-factor candidate, reject cheaply, verify
//! probabilistically, and build the block on success.
//!
//! One call runs the generate-filter-verify pipeline up to a caller-chosen
//! number of iterations, so a driver racing several workers can bound the
//! work wasted after another worker has already won: it hands out small
//! budgets and checks its cancellation signal between calls.  Rejection
//! statistics accumulate into the caller's `MiningStats` across calls.

use vstd::prelude::*;
use vstd::arithmetic::power::*;
use crate::arith::gcd;
use crate::arith::pow10;
use crate::block::{Block, factors_identity, spec_block_hash};
use crate::difficulty::DifficultyParams;
use crate::heuristic::{prime_heuristic, spec_heuristic_passes, density_micro, spec_density_micro};
use crate::hex::hex_string;
use crate::primality::miller_rabin;
use crate::rng::rand_in_range;

verus! {

/// What can go wrong around a mining round.  Candidate-level rejections are
/// retried silently and never surface here.
#[derive(Clone, Copy, PartialEq, Eq, Structural, Debug)]
pub enum MiningError {
    /// The difficulty parameters are outside the bounds that keep candidate
    /// construction within a machine word.
    ConfigurationOverflow,
    /// A proposed block does not extend the chain's tip.
    InvalidBlock,
    /// A round ended with no worker producing a block.
    MiningFailed,
}

/// Counters for one round, kept by the winning worker only.
#[derive(Clone, Copy, PartialEq, Eq, Structural, Debug)]
pub struct MiningStats {
    /// Candidates drawn.
    pub candidates: u64,
    /// Candidates rejected because a factor pair was not coprime.
    pub gcd_rejected: u64,
    /// Candidates rejected by the density pre-filter.
    pub heuristic_rejected: u64,
    /// Candidates rejected by the randomized verification.
    pub miller_rabin_rejected: u64,
    /// Density estimate `1 / ln(prime)` of the accepted prime, in
    /// millionths.
    pub probability_micro: u64,
}

impl MiningStats {
    /// Fresh counters for a round.
    pub fn new() -> (s: MiningStats)
        ensures
            s.candidates == 0,
            s.gcd_rejected == 0,
            s.heuristic_rejected == 0,
            s.miller_rabin_rejected == 0,
            s.probability_micro == 0,
    {
        MiningStats {
            candidates: 0,
            gcd_rejected: 0,
            heuristic_rejected: 0,
            miller_rabin_rejected: 0,
            probability_micro: 0,
        }
    }
}

/// Everything a freshly mined block must satisfy relative to the tip it
/// extends and the difficulty it was mined under.
pub open spec fn accepted_block(blk: Block, prev: Block, p: DifficultyParams) -> bool {
    &&& blk.index == prev.index + 1
    &&& blk.prev_hash@ == prev.hash@
    &&& blk.hash@ == spec_block_hash(blk.prime, prev.prime)
    &&& factors_identity(blk)
    &&& pow(10, (p.min_digits - 1) as nat) <= blk.a < pow(10, p.min_digits as nat)
    &&& pow(10, (p.min_digits - 1) as nat) <= blk.c < pow(10, p.min_digits as nat)
    &&& 1 <= blk.b <= p.n_limit
    &&& 1 <= blk.d <= p.n_limit
    &&& spec_heuristic_passes(blk.prime, p.min_prob_bp)
}

/// Runs up to `max_iters` iterations of the generate-filter-verify pipeline
/// over the tip `prev`.  Returns the freshly built block on success; on
/// exhaustion every iteration is accounted for in the rejection counters.
#[verifier::loop_isolation(false)]
pub fn mine_attempts(
    prev: &Block,
    params: &DifficultyParams,
    max_iters: u64,
    stats: &mut MiningStats,
) -> (found: Option<Block>)
    requires
        params.wf(),
        prev.index < u64::MAX,
        old(stats).candidates + max_iters <= u64::MAX,
        old(stats).gcd_rejected + max_iters <= u64::MAX,
        old(stats).heuristic_rejected + max_iters <= u64::MAX,
        old(stats).miller_rabin_rejected + max_iters <= u64::MAX,
    ensures
        final(stats).candidates <= old(stats).candidates + max_iters,
        final(stats).candidates >= old(stats).candidates,
        final(stats).candidates - old(stats).candidates == (final(stats).gcd_rejected - old(
            stats,
        ).gcd_rejected) + (final(stats).heuristic_rejected - old(stats).heuristic_rejected) + (
        final(stats).miller_rabin_rejected - old(stats).miller_rabin_rejected) + (
        if found is Some {
            1int
        } else {
            0int
        }),
        match found {
            Some(blk) => {
                &&& accepted_block(blk, *prev, *params)
                &&& final(stats).probability_micro == spec_density_micro(blk.prime)
            },
            None => {
                &&& final(stats).candidates == old(stats).candidates + max_iters
                &&& final(stats).probability_micro == old(stats).probability_micro
            },
        },
{
    let lo: u64 = pow10(params.min_digits - 1);
    let hi: u64 = pow10(params.min_digits);
    proof {
        lemma_pow_positive(10, (params.min_digits - 1) as nat);
        lemma_pow_strictly_increases(10, (params.min_digits - 1) as nat, params.min_digits as nat);
        lemma_pow_increases(10, params.min_digits as nat, 9);
        assert(pow(10, 9) == 1_000_000_000) by {
            reveal_with_fuel(pow, 10);
        }
    }
    let mut i: u64 = 0;
    while i < max_iters
        invariant
            i <= max_iters,
            stats.candidates == old(stats).candidates + i,
            stats.gcd_rejected >= old(stats).gcd_rejected,
            stats.heuristic_rejected >= old(stats).heuristic_rejected,
            stats.miller_rabin_rejected >= old(stats).miller_rabin_rejected,
            (stats.gcd_rejected - old(stats).gcd_rejected) + (stats.heuristic_rejected - old(
                stats,
            ).heuristic_rejected) + (stats.miller_rabin_rejected - old(
                stats,
            ).miller_rabin_rejected) == i,
            stats.probability_micro == old(stats).probability_micro,
        decreases max_iters - i,
    {
        i = i + 1;
        stats.candidates = stats.candidates + 1;
        let a: u64 = rand_in_range(lo, hi - 1);
        let b: u64 = rand_in_range(1, params.n_limit);
        let c: u64 = rand_in_range(lo, hi - 1);
        let d: u64 = rand_in_range(1, params.n_limit);
        if gcd(a, b) != 1 || gcd(c, d) != 1 {
            stats.gcd_rejected = stats.gcd_rejected + 1;
            continue;
        }
        proof {
            assert((a as int) * (d as int) + (b as int) * (c as int) <= 1_999_999_998_000_000_000)
                by (nonlinear_arith)
                requires
                    a <= 999_999_999,
                    c <= 999_999_999,
                    b <= 1_000_000_000,
                    d <= 1_000_000_000,
            ;
        }
        let n: u64 = a * d + b * c;
        if !prime_heuristic(n, params.min_prob_bp) {
            stats.heuristic_rejected = stats.heuristic_rejected + 1;
            continue;
        }
        if miller_rabin(n, 12) {
            stats.probability_micro = density_micro(n);
            let blk = Block {
                index: prev.index + 1,
                prev_hash: prev.hash.clone(),
                prime: n,
                a,
                b,
                c,
                d,
                hash: hex_string(n ^ prev.prime),
            };
            return Some(blk);
        }
        stats.miller_rabin_rejected = stats.miller_rabin_rejected + 1;
    }
    None
}

} // verus!
