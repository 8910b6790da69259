//! Randomized primality verification (Miller-Rabin).
//!
//! The deterministic core is `miller_rabin_round`, which decides exactly
//! whether one base passes the test for `n`; `miller_rabin` draws `k` random
//! bases and accepts only if every one of them passes.  The test has one-sided
//! error: a reported "composite" always comes with a failing base, while a
//! reported "probable prime" may be wrong with probability at most `4^-k`.

use vstd::prelude::*;
use vstd::arithmetic::power::*;
use vstd::arithmetic::power2::*;
use vstd::arithmetic::div_mod::*;
use crate::arith::mod_pow;
use crate::rng::rand_in_range;

verus! {

/// The odd factor of `m`: what is left after all factors of two are divided
/// out.
pub open spec fn spec_odd_part(m: nat) -> nat
    decreases m,
{
    if m > 0 && m % 2 == 0 {
        spec_odd_part(m / 2)
    } else {
        m
    }
}

/// The number of factors of two in `m`.
pub open spec fn spec_two_adicity(m: nat) -> nat
    decreases m,
{
    if m > 0 && m % 2 == 0 {
        1 + spec_two_adicity(m / 2)
    } else {
        0
    }
}

/// Whether base `a` passes one Miller-Rabin round for the odd number `n > 3`:
/// with `n - 1 == d * 2^r` and `d` odd, either `a^d == 1 (mod n)`, or
/// `a^(d * 2^j) == n - 1 (mod n)` for some `j < r`.
pub open spec fn spec_mr_passes(n: u64, a: u64) -> bool
    recommends
        n > 3,
        n % 2 == 1,
{
    let d = spec_odd_part((n - 1) as nat);
    let r = spec_two_adicity((n - 1) as nat);
    ||| pow(a as int, d) % (n as int) == 1
    ||| (exists|j: nat| j < r && pow(a as int, d * pow2(j)) % (n as int) == n - 1)
}

/// Splits `n - 1` into an odd factor and a power of two.
fn decompose(n: u64) -> (res: (u64, u32))
    requires
        n >= 3,
        n % 2 == 1,
    ensures
        res.0 == spec_odd_part((n - 1) as nat),
        res.1 == spec_two_adicity((n - 1) as nat),
        res.0 % 2 == 1,
        res.0 >= 1,
        (n - 1) as int == res.0 * pow2(res.1 as nat),
{
    let mut d: u64 = n - 1;
    let mut r: u32 = 0;
    proof {
        lemma_pow2_pos(0);
        lemma2_to64();
    }
    while d % 2 == 0
        invariant
            1 <= d,
            r <= 63,
            spec_odd_part((n - 1) as nat) == spec_odd_part(d as nat),
            spec_two_adicity((n - 1) as nat) == r + spec_two_adicity(d as nat),
            (n - 1) as int == d * pow2(r as nat),
        decreases d,
    {
        proof {
            lemma_pow2_unfold((r + 1) as nat);
            assert((d / 2) * pow2((r + 1) as nat) == d * pow2(r as nat)) by (nonlinear_arith)
                requires
                    d % 2 == 0,
                    d >= 1,
                    pow2((r + 1) as nat) == 2 * pow2(r as nat),
            ;
            assert(pow2((r + 1) as nat) <= (n - 1) as int) by (nonlinear_arith)
                requires
                    (n - 1) as int == d * pow2(r as nat),
                    d % 2 == 0,
                    d >= 1,
                    pow2((r + 1) as nat) == 2 * pow2(r as nat),
            ;
            assert(r + 1 <= 63) by {
                lemma2_to64_rest();
                if r + 1 >= 64 {
                    lemma_pow2_strictly_increases(64, (r + 1) as nat);
                }
            }
        }
        d = d / 2;
        r = r + 1;
    }
    (d, r)
}

/// Decides exactly whether base `a` passes one Miller-Rabin round for `n`.
/// `d` and `r` must be the decomposition of `n - 1` that `decompose` returns.
pub fn miller_rabin_round(n: u64, d: u64, r: u32, a: u64) -> (pass: bool)
    requires
        n > 3,
        n % 2 == 1,
        d == spec_odd_part((n - 1) as nat),
        r == spec_two_adicity((n - 1) as nat),
        d % 2 == 1,
        (n - 1) as int == d * pow2(r as nat),
        2 <= a && a <= n - 2,
    ensures
        pass == spec_mr_passes(n, a),
{
    proof {
        // n is odd and above 3, so n - 1 is even and r >= 1.
        lemma2_to64();
        assert(r >= 1) by {
            if r == 0 {
                assert((n - 1) as int == d);
            }
        }
    }
    let mut x: u64 = mod_pow(a, d, n);
    if x == 1 {
        return true;
    }
    if x == n - 1 {
        proof {
            assert(d * pow2(0) == d) by {
                lemma2_to64();
            }
            assert(exists|j: nat| j < r && pow(a as int, (d as nat) * pow2(j)) % (n as int) == n
                - 1) by {
                assert(pow(a as int, (d as nat) * pow2(0)) % (n as int) == n - 1);
            }
        }
        return true;
    }
    let mut i: u32 = 1;
    while i < r
        invariant
            n > 3,
            n % 2 == 1,
            2 <= a && a <= n - 2,
            d == spec_odd_part((n - 1) as nat),
            r == spec_two_adicity((n - 1) as nat),
            1 <= i <= r,
            x == pow(a as int, (d as nat) * pow2((i - 1) as nat)) % (n as int),
            pow(a as int, d as nat) % (n as int) != 1,
            forall|j: nat| j < i ==> pow(a as int, (d as nat) * pow2(j)) % (n as int) != n - 1,
        decreases r - i,
    {
        let ghost xo: int = x as int;
        let ghost e_prev: nat = (d as nat) * pow2((i - 1) as nat);
        x = mod_pow(x, 2, n);
        proof {
            assert(pow(xo, 2) == xo * xo) by {
                reveal_with_fuel(pow, 3);
            }
            lemma_mul_mod_noop_general(pow(a as int, e_prev), pow(a as int, e_prev), n as int);
            lemma_pow_adds(a as int, e_prev, e_prev);
            lemma_pow2_unfold(i as nat);
            assert((d as nat) * pow2(i as nat) == e_prev + e_prev) by (nonlinear_arith)
                requires
                    e_prev == (d as nat) * pow2((i - 1) as nat),
                    pow2(i as nat) == 2 * pow2((i - 1) as nat),
            ;
            assert(x == pow(a as int, (d as nat) * pow2(i as nat)) % (n as int));
        }
        if x == n - 1 {
            proof {
                assert(exists|j: nat| j < r && pow(a as int, (d as nat) * pow2(j)) % (n as int)
                    == n - 1) by {
                    assert(pow(a as int, (d as nat) * pow2(i as nat)) % (n as int) == n - 1);
                }
            }
            return true;
        }
        i = i + 1;
    }
    false
}

/// Randomized probable-prime decision with `k` independent rounds.
///
/// Small inputs are settled by the edge rules alone: nothing below 2 is
/// prime, 2 and 3 are prime, and any larger even number is composite.  For
/// odd `n > 3` the verdict is one-sided: a base that passes for every choice
/// forces acceptance (so a genuine prime is never rejected by an unlucky
/// draw of bases that all pass), and a rejection always stems from a
/// concrete base that fails the round, which only a composite number has.
pub fn miller_rabin(n: u64, k: u32) -> (probable_prime: bool)
    ensures
        n <= 1 ==> !probable_prime,
        n == 2 || n == 3 ==> probable_prime,
        n > 3 && n % 2 == 0 ==> !probable_prime,
        (n > 3 && n % 2 == 1 && (forall|a: u64| 2 <= a && a <= n - 2 ==> spec_mr_passes(n, a)))
            ==> probable_prime,
        n > 3 && n % 2 == 1 && !probable_prime ==> (exists|a: u64|
            2 <= a && a <= n - 2 && !spec_mr_passes(n, a)),
{
    if n <= 1 {
        return false;
    }
    if n <= 3 {
        return true;
    }
    if n % 2 == 0 {
        return false;
    }
    let (d, r) = decompose(n);
    let mut i: u32 = 0;
    while i < k
        invariant
            n > 3,
            n % 2 == 1,
            d == spec_odd_part((n - 1) as nat),
            r == spec_two_adicity((n - 1) as nat),
            d % 2 == 1,
            (n - 1) as int == d * pow2(r as nat),
        decreases k - i,
    {
        let a = rand_in_range(2, n - 2);
        if !miller_rabin_round(n, d, r, a) {
            proof {
                assert(exists|w: u64| 2 <= w && w <= n - 2 && !spec_mr_passes(n, w)) by {
                    assert(2 <= a && a <= n - 2 && !spec_mr_passes(n, a));
                }
            }
            return false;
        }
        i = i + 1;
    }
    true
}

} // verus!
