//! Laws that tie mining, block validation and chain validation together.
use vstd::prelude::*;
use crate::block::{is_mined, Block};
use crate::chain::{block_valid, chain_valid};
use crate::hashing::block_header;
use crate::mining::{is_least_nonce, meets_target};

verus! {

/// A mined block whose id is one more than its predecessor's, whose timestamp
/// is later and whose link is the predecessor's header is a valid successor.
pub proof fn lemma_mined_block_is_valid(pred: Block, cand: Block, target: Seq<char>)
    requires
        is_mined(cand, target),
        cand.id as int == pred.id as int + 1,
        cand.timestamp > pred.timestamp,
        cand.prev_hash@ == pred.header@,
    ensures
        block_valid(pred, cand, target),
{
}

/// Changing the id, the link or the header of a valid successor, or moving its
/// timestamp to or before its predecessor's, makes it invalid.
pub proof fn lemma_tampered_block_is_rejected(
    pred: Block,
    cand: Block,
    other: Block,
    target: Seq<char>,
)
    requires
        block_valid(pred, cand, target),
    ensures
        other.id != cand.id ==> !block_valid(pred, other, target),
        other.prev_hash@ != cand.prev_hash@ ==> !block_valid(pred, other, target),
        other.timestamp <= pred.timestamp ==> !block_valid(pred, other, target),
        other.id == cand.id && other.timestamp == cand.timestamp && other.prev_hash@
            == cand.prev_hash@ && other.transactions@.len() == cand.transactions@.len()
            && other.nonce == cand.nonce && other.header@ != cand.header@ ==> !block_valid(
            pred,
            other,
            target,
        ),
{
}

/// A chain of no block or of one block is valid.
pub proof fn lemma_short_chain_is_valid(chain: Seq<Block>, target: Seq<char>)
    requires
        chain.len() <= 1,
    ensures
        chain_valid(chain, target),
{
}

/// Mining is deterministic: for fixed content and target there is at most one
/// least nonce, and so one nonce and one header that mining can report.
pub proof fn lemma_mining_is_deterministic(
    id: u32,
    timestamp: i64,
    prev_hash: Seq<char>,
    n_tx: nat,
    target: Seq<char>,
    n1: u64,
    n2: u64,
)
    requires
        is_least_nonce(id, timestamp, prev_hash, n_tx, target, n1),
        is_least_nonce(id, timestamp, prev_hash, n_tx, target, n2),
    ensures
        n1 == n2,
        block_header(id, timestamp, prev_hash, n_tx, n1) == block_header(
            id,
            timestamp,
            prev_hash,
            n_tx,
            n2,
        ),
{
    if n1 < n2 {
        assert(!meets_target(block_header(id, timestamp, prev_hash, n_tx, n1), target));
    } else if n2 < n1 {
        assert(!meets_target(block_header(id, timestamp, prev_hash, n_tx, n2), target));
    }
}

/// Appending a valid successor to a valid chain gives a valid chain.
pub proof fn lemma_append_keeps_chain_valid(chain: Seq<Block>, b: Block, target: Seq<char>)
    requires
        chain.len() > 0,
        chain_valid(chain, target),
        block_valid(chain.last(), b, target),
    ensures
        chain_valid(chain.push(b), target),
{
    let s = chain.push(b);
    assert forall|i: int| 1 <= i < s.len() implies #[trigger] block_valid(s[i - 1], s[i], target) by {
        if i < chain.len() {
            assert(block_valid(chain[i - 1], chain[i], target));
        }
    }
}

} // verus!
