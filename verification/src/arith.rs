//! Integer arithmetic used throughout the mining engine: the Euclidean
//! greatest common divisor, modular exponentiation by squaring, powers of
//! ten, and decimal / binary length of a number.

use vstd::prelude::*;
use vstd::arithmetic::power::*;
use vstd::arithmetic::power2::*;
use vstd::arithmetic::div_mod::*;

verus! {

/// Greatest common divisor, by the Euclidean recursion.
pub open spec fn spec_gcd(a: nat, b: nat) -> nat
    decreases b,
{
    if b == 0 {
        a
    } else {
        spec_gcd(b, a % b)
    }
}

/// Euclid's algorithm.
pub fn gcd(a: u64, b: u64) -> (r: u64)
    ensures
        r == spec_gcd(a as nat, b as nat),
{
    let mut x: u64 = a;
    let mut y: u64 = b;
    while y != 0
        invariant
            spec_gcd(x as nat, y as nat) == spec_gcd(a as nat, b as nat),
        decreases y,
    {
        let t: u64 = y;
        y = x % y;
        x = t;
    }
    x
}

/// `pow(10, e)` for every digit count a difficulty setting can hold.
pub fn pow10(e: u32) -> (r: u64)
    requires
        e <= 19,
    ensures
        r == pow(10, e as nat),
    decreases e,
{
    if e == 0 {
        proof {
            lemma_pow0(10);
        }
        1
    } else {
        let p: u64 = pow10(e - 1);
        proof {
            lemma_pow_increases(10, (e - 1) as nat, 18);
            assert(pow(10, 18) == 0xde0b6b3a7640000) by {
                reveal_with_fuel(pow, 19);
            }
            assert(pow(10, e as nat) == 10 * pow(10, (e - 1) as nat)) by {
                reveal(pow);
            }
        }
        p * 10
    }
}

/// Decimal digit count (1 for the numbers 0 through 9).
pub open spec fn spec_decimal_digits(n: nat) -> nat
    decreases n,
{
    if n < 10 {
        1
    } else {
        1 + spec_decimal_digits(n / 10)
    }
}

/// The digit count of anything below `pow(10, k)` is at most `k`.
proof fn lemma_decimal_digits_bound(n: nat, k: nat)
    requires
        k >= 1,
        n < pow(10, k),
    ensures
        spec_decimal_digits(n) <= k,
    decreases k,
{
    if n >= 10 {
        assert(pow(10, k) == 10 * pow(10, (k - 1) as nat)) by {
            reveal(pow);
        }
        lemma_pow_positive(10, (k - 1) as nat);
        lemma_pow1(10);
        assert(k >= 2);
        lemma_decimal_digits_bound(n / 10, (k - 1) as nat);
    }
}

/// How many decimal digits `n` prints with.
pub fn decimal_digits(n: u64) -> (r: u32)
    ensures
        r == spec_decimal_digits(n as nat),
        1 <= r <= 20,
    decreases n,
{
    proof {
        assert(pow(10, 20) == 0x56bc75e2d63100000) by {
            reveal_with_fuel(pow, 21);
        }
        lemma_decimal_digits_bound(n as nat, 20);
    }
    if n < 10 {
        1
    } else {
        1 + decimal_digits(n / 10)
    }
}

/// Binary length: the least `k` with `n < pow2(k)`.
pub open spec fn spec_bitlen(n: nat) -> nat
    decreases n,
{
    if n == 0 {
        0
    } else {
        1 + spec_bitlen(n / 2)
    }
}

/// The binary length of anything below `pow2(k)` is at most `k`.
proof fn lemma_bitlen_bound(n: nat, k: nat)
    requires
        n < pow2(k),
    ensures
        spec_bitlen(n) <= k,
    decreases k,
{
    if n > 0 {
        lemma_pow2_pos(0);
        assert(k >= 1) by {
            lemma2_to64();
        }
        lemma_pow2_unfold(k);
        lemma_bitlen_bound(n / 2, (k - 1) as nat);
    }
}

/// Binary length of a machine word.
pub fn bitlen(n: u64) -> (r: u32)
    ensures
        r == spec_bitlen(n as nat),
        r <= 64,
    decreases n,
{
    proof {
        lemma2_to64_rest();
        lemma_bitlen_bound(n as nat, 64);
    }
    if n == 0 {
        0
    } else {
        1 + bitlen(n / 2)
    }
}

/// Modular exponentiation by squaring, with 128-bit intermediates so the
/// squaring step cannot overflow.
pub fn mod_pow(base: u64, exp: u64, modu: u64) -> (r: u64)
    requires
        modu >= 2,
    ensures
        r == pow(base as int, exp as nat) % (modu as int),
{
    let m: u128 = modu as u128;
    let mut result: u128 = 1;
    let mut b: u128 = (base as u128) % m;
    let mut e: u64 = exp;
    proof {
        lemma_pow_mod_noop(base as int, exp as nat, m as int);
        lemma_mod_bound(base as int, m as int);
    }
    while e > 0
        invariant
            m == modu,
            2 <= m,
            result < m,
            b < m,
            (result * pow(b as int, e as nat)) % (m as int) == pow(base as int, exp as nat) % (
            m as int),
        decreases e,
    {
        let ghost ri: int = result as int;
        let ghost bi: int = b as int;
        let ghost mi: int = m as int;
        let ghost k: nat = (e / 2) as nat;
        proof {
            assert(result * b < m * m && b * b < m * m && m * m <= u128::MAX) by (nonlinear_arith)
                requires
                    result < m,
                    b < m,
                    2 <= m <= 0xffff_ffff_ffff_ffff,
            ;
            // pow(bi, 2k) == pow(bi * bi, k)
            lemma_pow_multiplies(bi, 2, k);
            assert(pow(bi, 2) == bi * bi) by {
                reveal_with_fuel(pow, 3);
            }
            if e % 2 == 1 {
                assert(pow(bi, e as nat) == bi * pow(bi * bi, k)) by {
                    assert(pow(bi, e as nat) == bi * pow(bi, (e - 1) as nat)) by {
                        reveal(pow);
                    }
                    assert((e - 1) as nat == (2 * k) as nat);
                }
            } else {
                assert(pow(bi, e as nat) == pow(bi * bi, k)) by {
                    assert(e as nat == (2 * k) as nat);
                }
            }
            lemma_pow_mod_noop(bi * bi, k, mi);
        }
        if e % 2 == 1 {
            proof {
                // ((ri*bi) % m) * pow((bi*bi) % m, k)  ==  ri * pow(bi, e)  (mod m)
                lemma_mul_mod_noop_general(ri * bi, pow((bi * bi) % mi, k), mi);
                lemma_mul_mod_noop_general(ri * bi, pow(bi * bi, k), mi);
                assert(ri * bi * pow(bi * bi, k) == ri * (bi * pow(bi * bi, k)))
                    by (nonlinear_arith);
            }
            result = (result * b) % m;
        } else {
            proof {
                lemma_mul_mod_noop_general(ri, pow((bi * bi) % mi, k), mi);
                lemma_mul_mod_noop_general(ri, pow(bi * bi, k), mi);
            }
        }
        b = (b * b) % m;
        e = e / 2;
    }
    proof {
        lemma_pow0(b as int);
        lemma_small_mod(result as nat, m as nat);
    }
    result as u64
}

} // verus!
