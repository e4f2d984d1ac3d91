//! Blocks and their transactions, and the two ways a block is made.
use vstd::prelude::*;
use vstd::string::*;
use crate::hashing::block_header;
use crate::mining::{is_least_nonce, mine_block, no_nonce_meets};

verus! {

/// A transaction: an opaque payload with no fields in this core.
#[derive(Clone, Debug)]
pub struct Transaction {}

/// A block of the chain.
#[derive(Clone, Debug)]
pub struct Block {
    pub id: u32,
    pub timestamp: i64,
    pub header: String,
    pub prev_hash: String,
    pub transactions: Vec<Transaction>,
    pub nonce: u64,
}

/// The difficulty target in force: a header must start with these characters.
pub open spec fn default_difficulty() -> Seq<char> {
    "00"@
}

/// The difficulty target in force, as a string.
pub fn difficulty() -> (r: String)
    ensures
        r@ == default_difficulty(),
{
    String::from_str("00")
}

/// The sentinel both header and predecessor link of the genesis block carry.
pub open spec fn genesis_sentinel() -> Seq<char> {
    "genesis"@
}

/// `b` is the genesis block.
pub open spec fn is_genesis(b: Block) -> bool {
    &&& b.id == 0
    &&& b.timestamp == 0
    &&& b.header@ == genesis_sentinel()
    &&& b.prev_hash@ == genesis_sentinel()
    &&& b.transactions@.len() == 0
    &&& b.nonce == 0
}

/// The header of `b` is the hex digest of its own content.
pub open spec fn header_matches_content(b: Block) -> bool {
    b.header@ == block_header(b.id, b.timestamp, b.prev_hash@, b.transactions@.len(), b.nonce)
}

/// `b` came out of mining against `target`: its nonce is the least from one
/// upwards whose header meets the target, and it carries that header.
pub open spec fn is_mined(b: Block, target: Seq<char>) -> bool {
    &&& header_matches_content(b)
    &&& is_least_nonce(b.id, b.timestamp, b.prev_hash@, b.transactions@.len(), target, b.nonce)
}

/// Relies on chrono's `Utc::now` and `DateTime::timestamp`: the current time in
/// whole seconds since the epoch. Nothing is known of the value.
#[verifier::external_body]
fn now_timestamp() -> (r: i64) {
    chrono::Utc::now().timestamp()
}

impl Block {
    /// The fixed first block of every chain.
    pub fn genesis_block() -> (r: Block)
        ensures
            is_genesis(r),
    {
        Block {
            id: 0,
            timestamp: 0,
            header: String::from_str("genesis"),
            prev_hash: String::from_str("genesis"),
            transactions: Vec::new(),
            nonce: 0,
        }
    }

    /// Mines a block with this content at this time against `target`:
    /// `None` when no nonce that a `u64` can hold meets it.
    pub fn mine(
        id: u32,
        timestamp: i64,
        prev_hash: String,
        transactions: Vec<Transaction>,
        target: &str,
    ) -> (r: Option<Block>)
        ensures
            match r {
                Some(b) => {
                    &&& b.id == id
                    &&& b.timestamp == timestamp
                    &&& b.prev_hash@ == prev_hash@
                    &&& b.transactions@ == transactions@
                    &&& is_mined(b, target@)
                },
                None => no_nonce_meets(id, timestamp, prev_hash@, transactions@.len(), target@),
            },
    {
        match mine_block(&id, &timestamp, &prev_hash, &transactions, target) {
            Some((nonce, header)) => Some(Block { id, timestamp, header, prev_hash, transactions, nonce }),
            None => None,
        }
    }

    /// Mines a block with this content at the current time against the
    /// difficulty target in force.
    pub fn new(id: u32, prev_hash: String, transactions: Vec<Transaction>) -> (r: Option<Block>)
        ensures
            match r {
                Some(b) => {
                    &&& b.id == id
                    &&& b.prev_hash@ == prev_hash@
                    &&& b.transactions@ == transactions@
                    &&& is_mined(b, default_difficulty())
                },
                None => exists|t: i64|
                    #[trigger] no_nonce_meets(id, t, prev_hash@, transactions@.len(), default_difficulty()),
            },
    {
        let timestamp = now_timestamp();
        let target = difficulty();
        let r = Block::mine(id, timestamp, prev_hash, transactions, target.as_str());
        proof {
            if r is None {
                assert(no_nonce_meets(id, timestamp, prev_hash@, transactions@.len(), target@));
            }
        }
        r
    }
}

} // verus!
