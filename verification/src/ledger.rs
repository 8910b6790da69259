//! The append-only chain of blocks.  The ledger validates every appended
//! block against its tip - the index must be the next one and `prev_hash`
//! must equal the tip's `hash` - so the chain-link invariant and the fixed
//! genesis block hold of every ledger ever observable.

use vstd::prelude::*;
use crate::block::{Block, genesis_block, is_genesis};
use crate::mining::MiningError;

verus! {

/// The chain-link invariant: every block after the first continues its
/// predecessor's index by one and names its predecessor's hash.
pub open spec fn linked(s: Seq<Block>) -> bool {
    forall|i: int|
        1 <= i < s.len() ==> (#[trigger] s[i]).index == s[i - 1].index + 1 && s[i].prev_hash@
            == s[i - 1].hash@
}

/// In a linked chain that starts at genesis, every block's index is its
/// position.
pub proof fn lemma_block_indices(s: Seq<Block>, i: int)
    requires
        linked(s),
        s.len() >= 1,
        s[0].index == 0,
        0 <= i < s.len(),
    ensures
        s[i].index == i,
    decreases i,
{
    if i > 0 {
        lemma_block_indices(s, i - 1);
    }
}

/// The append-only sequence of accepted blocks, genesis first.
#[derive(Debug)]
pub struct ChainLedger {
    blocks: Vec<Block>,
}

impl ChainLedger {
    /// The blocks of the chain, oldest first.
    pub closed spec fn blocks_seq(&self) -> Seq<Block> {
        self.blocks@
    }

    /// A ledger is well formed when it starts with the fixed genesis block
    /// and is linked throughout.
    pub open spec fn wf(&self) -> bool {
        &&& self.blocks_seq().len() >= 1
        &&& is_genesis(self.blocks_seq()[0])
        &&& linked(self.blocks_seq())
    }

    /// A fresh ledger holding only genesis.
    pub fn new() -> (ledger: ChainLedger)
        ensures
            ledger.wf(),
            ledger.blocks_seq().len() == 1,
            is_genesis(ledger.blocks_seq()[0]),
    {
        let mut blocks: Vec<Block> = Vec::new();
        blocks.push(genesis_block());
        ChainLedger { blocks }
    }

    /// Number of blocks in the chain (at least 1: genesis).
    pub fn height(&self) -> (h: usize)
        ensures
            h == self.blocks_seq().len(),
    {
        self.blocks.len()
    }

    /// The newest block.
    pub fn tip(&self) -> (blk: &Block)
        requires
            self.wf(),
        ensures
            *blk == self.blocks_seq().last(),
    {
        &self.blocks[self.blocks.len() - 1]
    }

    /// The block at `position`.
    pub fn block_at(&self, position: usize) -> (blk: &Block)
        requires
            position < self.blocks_seq().len(),
        ensures
            *blk == self.blocks_seq()[position as int],
    {
        &self.blocks[position]
    }

    /// Appends `block` if and only if it carries the next index and names
    /// the tip's hash; otherwise reports `InvalidBlock` and leaves the chain
    /// unchanged.
    pub fn append(&mut self, block: Block) -> (r: Result<(), MiningError>)
        requires
            old(self).wf(),
        ensures
            final(self).wf(),
            r is Ok <==> (block.index == old(self).blocks_seq().len() && block.prev_hash@ == old(
                self,
            ).blocks_seq().last().hash@),
            match r {
                Ok(()) => final(self).blocks_seq() == old(self).blocks_seq().push(block),
                Err(e) => final(self).blocks_seq() == old(self).blocks_seq() && e
                    == MiningError::InvalidBlock,
            },
    {
        let len: usize = self.blocks.len();
        let fits: bool = block.index == len as u64 && block.prev_hash == self.blocks[len - 1].hash;
        if !fits {
            return Err(MiningError::InvalidBlock);
        }
        proof {
            lemma_block_indices(self.blocks@, self.blocks@.len() - 1);
        }
        self.blocks.push(block);
        Ok(())
    }

    /// An independent copy of the whole chain, for readers.
    pub fn snapshot(&self) -> (v: Vec<Block>)
        ensures
            v@ == self.blocks_seq(),
    {
        let mut v: Vec<Block> = Vec::new();
        let mut i: usize = 0;
        while i < self.blocks.len()
            invariant
                i <= self.blocks@.len(),
                v@ =~= self.blocks@.subrange(0, i as int),
            decreases self.blocks@.len() - i,
        {
            v.push(self.blocks[i].duplicate());
            i = i + 1;
        }
        proof {
            assert(v@ =~= self.blocks_seq());
        }
        v
    }
}

} // verus!
