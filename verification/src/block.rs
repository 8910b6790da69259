//! Blocks of the chain.  A block is immutable once appended: its proof of
//! work is the probable prime `prime`, constructed from the four factors as
//! `prime = a*d + b*c` with `gcd(a,b) == gcd(c,d) == 1`, and its `hash` field
//! is the hexadecimal rendering of `prime XOR previous prime` - a reversible
//! mixing kept for output compatibility, deliberately not a cryptographic
//! digest.

use vstd::prelude::*;
use crate::arith::spec_gcd;
use crate::arith::gcd;
use crate::hex::spec_hex;

verus! {

/// One block of the chain.
#[derive(Debug)]
pub struct Block {
    /// Position in the chain; 0 for genesis.
    pub index: u64,
    /// The `hash` field of the previous block ("0" for genesis).
    pub prev_hash: String,
    /// The probable prime found this round (2 for genesis).
    pub prime: u64,
    /// First factor of the first coprime pair.
    pub a: u64,
    /// Second factor of the first coprime pair.
    pub b: u64,
    /// First factor of the second coprime pair.
    pub c: u64,
    /// Second factor of the second coprime pair.
    pub d: u64,
    /// Hexadecimal rendering of `prime XOR previous prime` ("genesis" for
    /// genesis).  Deterministic and reversible, not tamper resistant.
    pub hash: String,
}

/// The arithmetic a block's proof of work must satisfy: the prime is exactly
/// `a*d + b*c`, and both factor pairs are in lowest terms.
pub open spec fn factors_identity(blk: Block) -> bool {
    &&& blk.prime == blk.a * blk.d + blk.b * blk.c
    &&& spec_gcd(blk.a as nat, blk.b as nat) == 1
    &&& spec_gcd(blk.c as nat, blk.d as nat) == 1
}

/// The fixed first block of every chain.
pub open spec fn is_genesis(blk: Block) -> bool {
    &&& blk.index == 0
    &&& blk.prev_hash@ == "0"@
    &&& blk.prime == 2
    &&& blk.a == 1
    &&& blk.b == 1
    &&& blk.c == 1
    &&& blk.d == 1
    &&& blk.hash@ == "genesis"@
}

/// The genesis block itself satisfies the proof-of-work arithmetic:
/// `2 == 1*1 + 1*1` and `gcd(1,1) == 1`.
pub proof fn lemma_genesis_identity(blk: Block)
    requires
        is_genesis(blk),
    ensures
        factors_identity(blk),
{
    assert(spec_gcd(1, 1) == 1) by {
        reveal_with_fuel(spec_gcd, 3);
    }
}

/// Builds the fixed genesis block.
pub fn genesis_block() -> (blk: Block)
    ensures
        is_genesis(blk),
        factors_identity(blk),
{
    proof {
        assert(spec_gcd(1, 1) == 1) by {
            reveal_with_fuel(spec_gcd, 3);
        }
    }
    Block {
        index: 0,
        prev_hash: "0".to_owned(),
        prime: 2,
        a: 1,
        b: 1,
        c: 1,
        d: 1,
        hash: "genesis".to_owned(),
    }
}

/// The hash a block must carry when it extends a block holding `prev_prime`.
pub open spec fn spec_block_hash(prime: u64, prev_prime: u64) -> Seq<char> {
    spec_hex((prime ^ prev_prime) as nat)
}

impl Block {
    /// A field-for-field copy whose equality to the original is known to the
    /// verifier.
    pub fn duplicate(&self) -> (blk: Block)
        ensures
            blk == *self,
    {
        Block {
            index: self.index,
            prev_hash: self.prev_hash.clone(),
            prime: self.prime,
            a: self.a,
            b: self.b,
            c: self.c,
            d: self.d,
            hash: self.hash.clone(),
        }
    }

    /// Runtime check of the proof-of-work arithmetic.
    pub fn has_valid_factors(&self) -> (r: bool)
        ensures
            r == factors_identity(*self),
    {
        proof {
            assert((self.a as int) * (self.d as int) <= 0xffff_ffff_ffff_ffff
                * 0xffff_ffff_ffff_ffff && (self.b as int) * (self.c as int)
                <= 0xffff_ffff_ffff_ffff * 0xffff_ffff_ffff_ffff) by (nonlinear_arith)
                requires
                    self.a <= 0xffff_ffff_ffff_ffff,
                    self.b <= 0xffff_ffff_ffff_ffff,
                    self.c <= 0xffff_ffff_ffff_ffff,
                    self.d <= 0xffff_ffff_ffff_ffff,
            ;
        }
        let ad: u128 = (self.a as u128) * (self.d as u128);
        let bc: u128 = (self.b as u128) * (self.c as u128);
        let prime: u128 = self.prime as u128;
        ad <= prime && bc == prime - ad && gcd(self.a, self.b) == 1 && gcd(self.c, self.d) == 1
    }
}

} // verus!
