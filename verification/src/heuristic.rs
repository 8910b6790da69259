//! Cheap pre-filter run before the expensive primality verification.
//!
//! Two stages, both free of false rejections of interesting candidates:
//! trial division by a fixed set of small primes (a composite with a small
//! factor is never prime, unless it equals that small prime), then a density
//! bar from the prime number theorem: a number near `n` is prime with
//! probability about `1 / ln(n)`, and candidates whose estimated density
//! falls below the configured minimum are skipped.
//!
//! All arithmetic is fixed point.  The natural logarithm is estimated as
//! `ln(2) * bitlen(n)` in thousandths (693 per bit, since `ln 2 ~ 0.693`),
//! and probabilities are held in ten-thousandths, as the difficulty
//! parameters hold them.

use vstd::prelude::*;
use crate::arith::{bitlen, spec_bitlen};

verus! {

/// Whether a small fixed prime divides `n` without being `n` itself.
pub open spec fn spec_has_small_factor(n: u64) -> bool {
    ||| (n % 2 == 0 && n != 2)
    ||| (n % 3 == 0 && n != 3)
    ||| (n % 5 == 0 && n != 5)
    ||| (n % 7 == 0 && n != 7)
    ||| (n % 11 == 0 && n != 11)
    ||| (n % 13 == 0 && n != 13)
    ||| (n % 17 == 0 && n != 17)
    ||| (n % 19 == 0 && n != 19)
    ||| (n % 23 == 0 && n != 23)
    ||| (n % 29 == 0 && n != 29)
    ||| (n % 31 == 0 && n != 31)
    ||| (n % 37 == 0 && n != 37)
    ||| (n % 41 == 0 && n != 41)
    ||| (n % 43 == 0 && n != 43)
    ||| (n % 47 == 0 && n != 47)
}

/// Trial division by the fixed small primes.
pub fn has_small_factor(n: u64) -> (r: bool)
    ensures
        r == spec_has_small_factor(n),
{
    (n % 2 == 0 && n != 2) || (n % 3 == 0 && n != 3) || (n % 5 == 0 && n != 5) || (n % 7 == 0 && n
        != 7) || (n % 11 == 0 && n != 11) || (n % 13 == 0 && n != 13) || (n % 17 == 0 && n != 17)
        || (n % 19 == 0 && n != 19) || (n % 23 == 0 && n != 23) || (n % 29 == 0 && n != 29) || (n
        % 31 == 0 && n != 31) || (n % 37 == 0 && n != 37) || (n % 41 == 0 && n != 41) || (n % 43
        == 0 && n != 43) || (n % 47 == 0 && n != 47)
}

/// Fixed-point estimate of `ln(n)` in thousandths: 693 per binary digit.
pub open spec fn spec_ln_milli(n: u64) -> int {
    693 * (spec_bitlen(n as nat) as int)
}

/// `ln(n)` estimate in thousandths.
pub fn ln_milli(n: u64) -> (r: u64)
    ensures
        r == spec_ln_milli(n),
        r <= 44352,
{
    693 * (bitlen(n) as u64)
}

/// Whether the estimated prime density `1 / ln(n)` reaches the configured
/// minimum probability (in ten-thousandths):
/// `1 / ln(n) >= min_prob_bp / 10000`, cross-multiplied into fixed point.
pub open spec fn spec_density_passes(n: u64, min_prob_bp: u64) -> bool {
    min_prob_bp * spec_ln_milli(n) <= 10_000_000
}

/// The whole pre-filter: candidates below 2, with a small factor, or with an
/// estimated prime density under the configured bar are rejected.
pub open spec fn spec_heuristic_passes(n: u64, min_prob_bp: u64) -> bool {
    &&& n >= 2
    &&& !spec_has_small_factor(n)
    &&& spec_density_passes(n, min_prob_bp)
}

/// Runs the pre-filter on candidate `n`.
pub fn prime_heuristic(n: u64, min_prob_bp: u64) -> (r: bool)
    ensures
        r == spec_heuristic_passes(n, min_prob_bp),
{
    if n < 2 {
        return false;
    }
    if has_small_factor(n) {
        return false;
    }
    let l: u64 = ln_milli(n);
    proof {
        assert((min_prob_bp as int) * (l as int) <= 0xffff_ffff_ffff_ffff * 44352)
            by (nonlinear_arith)
            requires
                min_prob_bp <= 0xffff_ffff_ffff_ffff,
                l <= 44352,
        ;
    }
    (min_prob_bp as u128) * (l as u128) <= 10_000_000
}

/// The heuristic density estimate `1 / ln(n)` in millionths, as reported in
/// a round's statistics for the accepted prime.
pub open spec fn spec_density_micro(n: u64) -> int
    recommends
        n >= 2,
{
    1_000_000_000int / spec_ln_milli(n)
}

/// `1 / ln(n)` in millionths.
pub fn density_micro(n: u64) -> (r: u64)
    requires
        n >= 2,
    ensures
        r == spec_density_micro(n),
{
    let l: u64 = ln_milli(n);
    assert(l >= 693) by {
        assert(spec_bitlen(n as nat) >= 1);
    }
    1_000_000_000 / l
}

} // verus!
