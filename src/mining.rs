//! The difficulty predicate and the proof-of-work search for a nonce.
use vstd::prelude::*;
use vstd::string::*;
use crate::block::Transaction;
use crate::hashing::{block_header, calculate_hash, hex_encode};

verus! {

/// A header meets the difficulty target when it starts with the target's characters.
pub open spec fn meets_target(header: Seq<char>, target: Seq<char>) -> bool {
    target.len() <= header.len() && header.subrange(0, target.len() as int) == target
}

/// `nonce` is the smallest nonce from one upwards whose header meets the target.
pub open spec fn is_least_nonce(
    id: u32,
    timestamp: i64,
    prev_hash: Seq<char>,
    n_tx: nat,
    target: Seq<char>,
    nonce: u64,
) -> bool {
    &&& 1 <= nonce
    &&& meets_target(block_header(id, timestamp, prev_hash, n_tx, nonce), target)
    &&& forall|m: u64|
        1 <= m < nonce ==> !meets_target(
            #[trigger] block_header(id, timestamp, prev_hash, n_tx, m),
            target,
        )
}

/// No nonce from one upwards that a `u64` can hold gives a header that meets the target.
pub open spec fn no_nonce_meets(
    id: u32,
    timestamp: i64,
    prev_hash: Seq<char>,
    n_tx: nat,
    target: Seq<char>,
) -> bool {
    forall|m: u64|
        1 <= m ==> !meets_target(#[trigger] block_header(id, timestamp, prev_hash, n_tx, m), target)
}

/// Whether `header` begins with exactly the characters of `target`.
pub fn header_meets_target(header: &str, target: &str) -> (r: bool)
    ensures
        r == meets_target(header@, target@),
{
    let k = target.unicode_len();
    if header.unicode_len() < k {
        return false;
    }
    let mut i: usize = 0;
    while i < k
        invariant
            k == target@.len(),
            k <= header@.len(),
            i <= k,
            forall|j: int| 0 <= j < i ==> header@[j] == target@[j],
        decreases k - i,
    {
        if header.get_char(i) != target.get_char(i) {
            return false;
        }
        i = i + 1;
    }
    assert(header@.subrange(0, k as int) =~= target@);
    true
}

/// Searches the nonces from one upwards, in order, for the first whose header
/// meets the target, and returns it with that header; `None` when no nonce
/// that a `u64` can hold does.
pub fn mine_block(
    id: &u32,
    timestamp: &i64,
    prev_hash: &String,
    transactions: &Vec<Transaction>,
    target: &str,
) -> (r: Option<(u64, String)>)
    ensures
        match r {
            Some((nonce, header)) => {
                &&& is_least_nonce(*id, *timestamp, prev_hash@, transactions@.len(), target@, nonce)
                &&& header@ == block_header(*id, *timestamp, prev_hash@, transactions@.len(), nonce)
            },
            None => no_nonce_meets(*id, *timestamp, prev_hash@, transactions@.len(), target@),
        },
{
    let mut nonce: u64 = 1;
    loop
        invariant
            1 <= nonce,
            forall|m: u64|
                1 <= m < nonce ==> !meets_target(
                    #[trigger] block_header(*id, *timestamp, prev_hash@, transactions@.len(), m),
                    target@,
                ),
        decreases u64::MAX - nonce,
    {
        let digest = calculate_hash(id, timestamp, prev_hash, transactions, &nonce);
        let header = hex_encode(digest.as_slice());
        if header_meets_target(header.as_str(), target) {
            return Some((nonce, header));
        }
        if nonce == u64::MAX {
            return None;
        }
        nonce = nonce + 1;
    }
}

} // verus!
