//! The ledger: block and chain validation, appending, and fork choice.
use vstd::prelude::*;
use vstd::string::*;
use crate::block::{default_difficulty, difficulty, header_matches_content, is_genesis, Block};
use crate::hashing::{calculate_hash, hex_encode};
use crate::laws::lemma_append_keeps_chain_valid;
use crate::mining::{header_meets_target, meets_target};

verus! {

/// `cand` may follow `pred` under the difficulty target `target`.
pub open spec fn block_valid(pred: Block, cand: Block, target: Seq<char>) -> bool {
    &&& cand.id as int == pred.id as int + 1
    &&& cand.timestamp > pred.timestamp
    &&& header_matches_content(cand)
    &&& cand.prev_hash@ == pred.header@
    &&& meets_target(cand.header@, target)
}

/// Every block of `chain` but the first may follow the block before it.
pub open spec fn chain_valid(chain: Seq<Block>, target: Seq<char>) -> bool {
    forall|i: int| 1 <= i < chain.len() ==> #[trigger] block_valid(chain[i - 1], chain[i], target)
}

/// Why fork choice could not pick a chain.
#[derive(Clone, Copy, Debug, PartialEq, Eq, Structural)]
pub enum ChainError {
    /// Neither chain is valid: there is no chain to trust.
    BothChainsInvalid,
}

/// A ledger that holds one chain, checked against one difficulty target.
pub struct App {
    pub blocks: Vec<Block>,
    pub difficulty: String,
}

impl App {
    /// An empty ledger under the difficulty target in force.
    pub fn new() -> (r: App)
        ensures
            r.blocks@.len() == 0,
            r.difficulty@ == default_difficulty(),
    {
        App { blocks: Vec::new(), difficulty: difficulty() }
    }

    /// An empty ledger under the difficulty target `target`.
    pub fn with_difficulty(target: String) -> (r: App)
        ensures
            r.blocks@.len() == 0,
            r.difficulty@ == target@,
    {
        App { blocks: Vec::new(), difficulty: target }
    }

    /// Appends the genesis block.
    pub fn add_genesis_block(&mut self)
        ensures
            final(self).difficulty == old(self).difficulty,
            final(self).blocks@.len() == old(self).blocks@.len() + 1,
            final(self).blocks@.subrange(0, old(self).blocks@.len() as int) == old(self).blocks@,
            is_genesis(final(self).blocks@.last()),
    {
        self.blocks.push(Block::genesis_block());
        assert(self.blocks@.subrange(0, old(self).blocks@.len() as int) =~= old(self).blocks@);
    }

    /// Appends `block` when it may follow the last block of the chain, and
    /// says whether it did; otherwise the chain stays as it was.
    pub fn add_block_to_chain(&mut self, block: Block) -> (accepted: bool)
        requires
            old(self).blocks@.len() > 0,
        ensures
            final(self).difficulty == old(self).difficulty,
            accepted == block_valid(old(self).blocks@.last(), block, old(self).difficulty@),
            accepted ==> final(self).blocks@ == old(self).blocks@.push(block),
            !accepted ==> final(self).blocks@ == old(self).blocks@,
            chain_valid(old(self).blocks@, old(self).difficulty@) ==> chain_valid(
                final(self).blocks@,
                final(self).difficulty@,
            ),
    {
        let n = self.blocks.len();
        let accepted = self.check_block_is_valid(&self.blocks[n - 1], &block);
        if accepted {
            self.blocks.push(block);
            proof {
                if chain_valid(old(self).blocks@, self.difficulty@) {
                    lemma_append_keeps_chain_valid(old(self).blocks@, block, self.difficulty@);
                }
            }
        }
        accepted
    }

    /// Whether `new_block` may follow `latest_block`: its id is one more, its
    /// timestamp later, its header the hex digest of its content, its link the
    /// predecessor's header, and its header meets the difficulty target.
    pub fn check_block_is_valid(&self, latest_block: &Block, new_block: &Block) -> (r: bool)
        ensures
            r == block_valid(*latest_block, *new_block, self.difficulty@),
    {
        if latest_block.id == u32::MAX || latest_block.id + 1 != new_block.id {
            return false;
        }
        if new_block.timestamp <= latest_block.timestamp {
            return false;
        }
        let digest = calculate_hash(
            &new_block.id,
            &new_block.timestamp,
            &new_block.prev_hash,
            &new_block.transactions,
            &new_block.nonce,
        );
        let expected = hex_encode(digest.as_slice());
        if !(new_block.header == expected) {
            return false;
        }
        if !(new_block.prev_hash == latest_block.header) {
            return false;
        }
        header_meets_target(new_block.header.as_str(), self.difficulty.as_str())
    }

    /// Whether every block of `chain` but the first may follow the one before it.
    pub fn check_chain_is_valid(&self, chain: &Vec<Block>) -> (r: bool)
        ensures
            r == chain_valid(chain@, self.difficulty@),
    {
        let mut i: usize = 1;
        while i < chain.len()
            invariant
                1 <= i,
                forall|j: int| 1 <= j < i && j < chain@.len() ==> #[trigger] block_valid(
                    chain@[j - 1],
                    chain@[j],
                    self.difficulty@,
                ),
            decreases chain.len() - i,
        {
            if !self.check_block_is_valid(&chain[i - 1], &chain[i]) {
                return false;
            }
            i = i + 1;
        }
        true
    }

    /// The chain to adopt: of two valid chains the longer, the local one on a
    /// tie; of one valid chain that one; an error when neither is valid.
    pub fn choose_chain(&mut self, local_chain: Vec<Block>, new_chain: Vec<Block>) -> (r: Result<
        Vec<Block>,
        ChainError,
    >)
        ensures
            *final(self) == *old(self),
            ({
                let lv = chain_valid(local_chain@, old(self).difficulty@);
                let nv = chain_valid(new_chain@, old(self).difficulty@);
                &&& lv && nv && new_chain@.len() <= local_chain@.len() ==> r == Ok::<
                    Vec<Block>,
                    ChainError,
                >(local_chain)
                &&& lv && nv && new_chain@.len() > local_chain@.len() ==> r == Ok::<
                    Vec<Block>,
                    ChainError,
                >(new_chain)
                &&& lv && !nv ==> r == Ok::<Vec<Block>, ChainError>(local_chain)
                &&& !lv && nv ==> r == Ok::<Vec<Block>, ChainError>(new_chain)
                &&& !lv && !nv ==> r == Err::<Vec<Block>, ChainError>(ChainError::BothChainsInvalid)
            }),
    {
        let is_local_valid = self.check_chain_is_valid(&local_chain);
        let is_new_valid = self.check_chain_is_valid(&new_chain);
        if is_local_valid && is_new_valid {
            if new_chain.len() <= local_chain.len() {
                Ok(local_chain)
            } else {
                Ok(new_chain)
            }
        } else if is_local_valid {
            Ok(local_chain)
        } else if is_new_valid {
            Ok(new_chain)
        } else {
            Err(ChainError::BothChainsInvalid)
        }
    }
}

} // verus!
