//! One node's whole state: the ledger and the difficulty parameters, with
//! the round driver on top.  Rounds are serialized by ownership: every round
//! takes the state exclusively, so two rounds can never race on the same tip
//! or tear a parameter update.

use vstd::prelude::*;
use crate::block::{Block, factors_identity, is_genesis, lemma_genesis_identity};
use crate::difficulty::{DifficultyParams, adjust_difficulty, spec_adjust};
use crate::heuristic::spec_density_micro;
use crate::ledger::{ChainLedger, linked, lemma_block_indices};
use crate::mining::{MiningError, MiningStats, accepted_block, mine_attempts};

verus! {

/// What a completed round reports: the winning block, the winning worker's
/// statistics, and the chain height after the append.
#[derive(Debug)]
pub struct RoundOutcome {
    /// The freshly appended block.
    pub block: Block,
    /// The winning worker's counters.
    pub stats: MiningStats,
    /// Chain length after the append, genesis included.
    pub height: u64,
}

/// The ledger and the current difficulty parameters of one node.
#[derive(Debug)]
pub struct ChainState {
    ledger: ChainLedger,
    params: DifficultyParams,
}

impl ChainState {
    /// The blocks of the chain, oldest first.
    pub closed spec fn spec_chain(&self) -> Seq<Block> {
        self.ledger.blocks_seq()
    }

    /// The difficulty parameters the next round will run under.
    pub closed spec fn spec_params(&self) -> DifficultyParams {
        self.params
    }

    /// Every observable state starts at the fixed genesis block, is linked
    /// throughout, carries valid proof-of-work arithmetic in every block,
    /// and holds difficulty parameters within bounds.
    pub open spec fn wf(&self) -> bool {
        &&& self.spec_chain().len() >= 1
        &&& is_genesis(self.spec_chain()[0])
        &&& linked(self.spec_chain())
        &&& (forall|i: int|
            0 <= i < self.spec_chain().len() ==> factors_identity(
                #[trigger] self.spec_chain()[i],
            ))
        &&& self.spec_params().wf()
    }

    /// A fresh node: genesis only, default difficulty.
    pub fn new() -> (s: ChainState)
        ensures
            s.wf(),
            s.spec_chain().len() == 1,
            is_genesis(s.spec_chain()[0]),
            s.spec_params() == DifficultyParams::spec_initial(),
    {
        let ledger = ChainLedger::new();
        proof {
            lemma_genesis_identity(ledger.blocks_seq()[0]);
        }
        ChainState { ledger, params: DifficultyParams::initial() }
    }

    /// A fresh node under the given difficulty, if its parameters are within
    /// the bounds that keep candidate construction from overflowing.
    pub fn with_params(params: DifficultyParams) -> (r: Result<ChainState, MiningError>)
        ensures
            r is Ok <==> params.wf(),
            match r {
                Ok(s) => {
                    &&& s.wf()
                    &&& s.spec_chain().len() == 1
                    &&& is_genesis(s.spec_chain()[0])
                    &&& s.spec_params() == params
                },
                Err(e) => e == MiningError::ConfigurationOverflow,
            },
    {
        if !params.is_valid() {
            return Err(MiningError::ConfigurationOverflow);
        }
        let ledger = ChainLedger::new();
        proof {
            lemma_genesis_identity(ledger.blocks_seq()[0]);
        }
        Ok(ChainState { ledger, params })
    }

    /// Chain length, genesis included.
    pub fn height(&self) -> (h: usize)
        ensures
            h == self.spec_chain().len(),
    {
        self.ledger.height()
    }

    /// The difficulty parameters the next round will run under.
    pub fn difficulty(&self) -> (p: DifficultyParams)
        ensures
            p == self.spec_params(),
    {
        self.params
    }

    /// An independent copy of the newest block.
    pub fn tip_block(&self) -> (blk: Block)
        requires
            self.wf(),
        ensures
            blk == self.spec_chain().last(),
    {
        self.ledger.tip().duplicate()
    }

    /// An independent copy of the whole chain, for readers.
    pub fn snapshot(&self) -> (v: Vec<Block>)
        ensures
            v@ == self.spec_chain(),
    {
        self.ledger.snapshot()
    }

    /// Runs one mining round over the current tip: up to `max_iters`
    /// iterations of the generate-filter-verify pipeline, and on success
    /// exactly one append of the winning block.  A round that exhausts its
    /// budget reports `MiningFailed` and leaves the chain unchanged; the
    /// difficulty parameters are never touched here (feed the measured
    /// duration to `apply_duration` afterwards).
    pub fn mine_round(&mut self, max_iters: u64) -> (r: Result<RoundOutcome, MiningError>)
        requires
            old(self).wf(),
        ensures
            final(self).wf(),
            final(self).spec_params() == old(self).spec_params(),
            match r {
                Ok(out) => {
                    &&& final(self).spec_chain() == old(self).spec_chain().push(out.block)
                    &&& accepted_block(
                        out.block,
                        old(self).spec_chain().last(),
                        old(self).spec_params(),
                    )
                    &&& out.height == final(self).spec_chain().len()
                    &&& 1 <= out.stats.candidates <= max_iters
                    &&& out.stats.candidates == out.stats.gcd_rejected
                        + out.stats.heuristic_rejected + out.stats.miller_rabin_rejected + 1
                    &&& out.stats.probability_micro == spec_density_micro(out.block.prime)
                },
                Err(e) => {
                    &&& final(self).spec_chain() == old(self).spec_chain()
                    &&& e == MiningError::MiningFailed
                },
            },
    {
        let prev: Block = self.ledger.tip().duplicate();
        let h: usize = self.ledger.height();
        proof {
            lemma_block_indices(self.ledger.blocks_seq(), self.ledger.blocks_seq().len() - 1);
            assert(prev.index == h - 1);
        }
        let mut stats: MiningStats = MiningStats::new();
        let found: Option<Block> = mine_attempts(&prev, &self.params, max_iters, &mut stats);
        match found {
            None => Err(MiningError::MiningFailed),
            Some(block) => {
                let out_block: Block = block.duplicate();
                let appended: Result<(), MiningError> = self.ledger.append(block);
                match appended {
                    Ok(()) => {
                        let height: usize = self.ledger.height();
                        Ok(RoundOutcome { block: out_block, stats, height: height as u64 })
                    },
                    Err(_) => {
                        proof {
                            // The mined block provably carries the next index
                            // and the tip's hash, so the append cannot fail.
                            assert(false);
                        }
                        Err(MiningError::MiningFailed)
                    },
                }
            },
        }
    }

    /// Appends an externally mined block, validating both the proof-of-work
    /// arithmetic and the link to the tip; on any failure the chain is left
    /// unchanged.
    pub fn commit_block(&mut self, block: Block) -> (r: Result<(), MiningError>)
        requires
            old(self).wf(),
        ensures
            final(self).wf(),
            final(self).spec_params() == old(self).spec_params(),
            r is Ok <==> (factors_identity(block) && block.index == old(self).spec_chain().len()
                && block.prev_hash@ == old(self).spec_chain().last().hash@),
            match r {
                Ok(()) => final(self).spec_chain() == old(self).spec_chain().push(block),
                Err(e) => final(self).spec_chain() == old(self).spec_chain() && e
                    == MiningError::InvalidBlock,
            },
    {
        if !block.has_valid_factors() {
            return Err(MiningError::InvalidBlock);
        }
        self.ledger.append(block)
    }

    /// Feeds the measured round duration (in milliseconds) to the difficulty
    /// controller.  The whole parameter set is replaced at once.
    pub fn apply_duration(&mut self, duration_ms: u64)
        requires
            old(self).wf(),
        ensures
            final(self).wf(),
            final(self).spec_chain() == old(self).spec_chain(),
            final(self).spec_params() == spec_adjust(old(self).spec_params(), duration_ms),
    {
        self.params = adjust_difficulty(self.params, duration_ms);
    }
}

/// Chain-link law: in any well-formed state, every block after genesis
/// continues its predecessor's index by one and names its predecessor's
/// hash.
pub proof fn lemma_chain_link(s: &ChainState, i: int)
    requires
        s.wf(),
        1 <= i < s.spec_chain().len(),
    ensures
        s.spec_chain()[i].index == s.spec_chain()[i - 1].index + 1,
        s.spec_chain()[i].prev_hash@ == s.spec_chain()[i - 1].hash@,
{
}

/// Genesis law: the first block of any well-formed state is the fixed
/// sentinel, field for field.
pub proof fn lemma_genesis_fixed(s: &ChainState)
    requires
        s.wf(),
    ensures
        s.spec_chain()[0].index == 0,
        s.spec_chain()[0].prev_hash@ == "0"@,
        s.spec_chain()[0].prime == 2,
        s.spec_chain()[0].a == 1,
        s.spec_chain()[0].b == 1,
        s.spec_chain()[0].c == 1,
        s.spec_chain()[0].d == 1,
        s.spec_chain()[0].hash@ == "genesis"@,
{
}

/// Position law: in any well-formed state, a block's index is its position
/// in the chain, so indices are contiguous with no duplicates or gaps.
pub proof fn lemma_chain_positions(s: &ChainState, i: int)
    requires
        s.wf(),
        0 <= i < s.spec_chain().len(),
    ensures
        s.spec_chain()[i].index == i,
{
    lemma_block_indices(s.spec_chain(), i);
}

/// Block arithmetic law: every block of any well-formed state satisfies
/// `prime == a*d + b*c` exactly, with both factor pairs coprime.
pub proof fn lemma_block_arithmetic(s: &ChainState, i: int)
    requires
        s.wf(),
        0 <= i < s.spec_chain().len(),
    ensures
        factors_identity(s.spec_chain()[i]),
{
}

} // verus!
