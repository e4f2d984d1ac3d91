use blockchain::block::{difficulty, Block, Transaction};
use blockchain::chain::{App, ChainError};
use blockchain::hashing::{calculate_hash, canonical_encoding};
use blockchain::mining::{header_meets_target, mine_block};
use sha2::Digest;

fn mined(id: u32, timestamp: i64, prev_hash: &str, n_tx: usize) -> Block {
    let transactions: Vec<Transaction> = (0..n_tx).map(|_| Transaction {}).collect();
    Block::mine(id, timestamp, prev_hash.to_string(), transactions, "00").unwrap()
}

fn ledger_with_genesis() -> App {
    let mut app = App::new();
    app.add_genesis_block();
    app
}

/// A valid chain: genesis followed by `n` mined blocks.
fn valid_chain(n: u32, first_timestamp: i64) -> Vec<Block> {
    let mut chain = vec![Block::genesis_block()];
    for i in 1..=n {
        let prev = chain.last().unwrap().header.clone();
        chain.push(mined(i, first_timestamp + i as i64, &prev, 0));
    }
    chain
}

#[test]
fn test() {}

#[test]
fn genesis_block_is_the_sentinel() {
    let g = Block::genesis_block();
    assert_eq!(g.id, 0);
    assert_eq!(g.timestamp, 0);
    assert_eq!(g.header, "genesis");
    assert_eq!(g.prev_hash, "genesis");
    assert!(g.transactions.is_empty());
    assert_eq!(g.nonce, 0);
}

#[test]
fn canonical_encoding_fixes_field_order() {
    let s = canonical_encoding(1, -5, "ab\"c", 2, 7);
    assert_eq!(
        s,
        "{\"id\":1,\"timestamp\":-5,\"prev_hash\":\"ab\\\"c\",\"transactions\":[{},{}],\"nonce\":7}"
    );
    let s = canonical_encoding(4294967295, 1700000000, "genesis", 0, 18446744073709551615);
    assert_eq!(
        s,
        "{\"id\":4294967295,\"timestamp\":1700000000,\"prev_hash\":\"genesis\",\"transactions\":[],\"nonce\":18446744073709551615}"
    );
}

#[test]
fn calculate_hash_is_sha256_of_canonical_encoding() {
    let txs = vec![Transaction {}];
    let prev = "genesis".to_string();
    let digest = calculate_hash(&3, &42, &prev, &txs, &9);
    let content = canonical_encoding(3, 42, "genesis", 1, 9);
    let expected = sha2::Sha256::digest(content.as_bytes()).to_vec();
    assert_eq!(digest.len(), 32);
    assert_eq!(digest, expected);
    assert_eq!(digest, calculate_hash(&3, &42, &prev, &txs, &9));
    assert_ne!(digest, calculate_hash(&3, &42, &prev, &txs, &10));
}

#[test]
fn difficulty_compares_exactly_the_target_length() {
    assert!(header_meets_target("00abc", "00"));
    assert!(header_meets_target("00", "00"));
    assert!(!header_meets_target("0", "00"));
    assert!(!header_meets_target("0a0", "00"));
    assert!(!header_meets_target("a00", "00"));
    assert!(header_meets_target("001", "00"));
    assert!(header_meets_target("anything", ""));
    assert_eq!(difficulty(), "00");
}

#[test]
fn mined_header_is_lowercase_hex_of_digest_and_nonce_is_least() {
    let b = mined(1, 1000, "genesis", 2);
    assert_eq!(b.header.len(), 64);
    assert!(b.header.chars().all(|c| c.is_ascii_digit() || ('a'..='f').contains(&c)));
    assert!(b.header.starts_with("00"));
    assert!(b.nonce >= 1);
    let digest = calculate_hash(&b.id, &b.timestamp, &b.prev_hash, &b.transactions, &b.nonce);
    assert_eq!(b.header, hex::encode(&digest));
    for m in 1..b.nonce {
        let d = calculate_hash(&b.id, &b.timestamp, &b.prev_hash, &b.transactions, &m);
        assert!(!hex::encode(&d).starts_with("00"));
    }
}

#[test]
fn mining_is_deterministic() {
    let txs = vec![Transaction {}, Transaction {}];
    let prev = "abc".to_string();
    let r1 = mine_block(&5, &77, &prev, &txs, "00").unwrap();
    let r2 = mine_block(&5, &77, &prev, &txs, "00").unwrap();
    assert_eq!(r1, r2);
    let b1 = mined(5, 77, "abc", 2);
    let b2 = mined(5, 77, "abc", 2);
    assert_eq!((b1.nonce, b1.header.clone()), (b2.nonce, b2.header.clone()));
    assert_eq!((b1.nonce, b1.header), r1);
}

#[test]
fn mined_successor_is_valid() {
    let app = ledger_with_genesis();
    let g = Block::genesis_block();
    let b = mined(1, 1000, &g.header, 0);
    assert!(app.check_block_is_valid(&g, &b));
    let c = mined(2, 1001, &b.header, 3);
    assert!(app.check_block_is_valid(&b, &c));
}

#[test]
fn tampered_fields_are_rejected() {
    let app = ledger_with_genesis();
    let g = Block::genesis_block();
    let b = mined(1, 1000, &g.header, 1);
    assert!(app.check_block_is_valid(&g, &b));

    let mut t = b.clone();
    t.id = 2;
    assert!(!app.check_block_is_valid(&g, &t));

    let mut t = b.clone();
    t.timestamp = 1001;
    assert!(!app.check_block_is_valid(&g, &t));

    let mut t = b.clone();
    t.timestamp = 0;
    assert!(!app.check_block_is_valid(&g, &t));

    let mut t = b.clone();
    t.prev_hash = "other".to_string();
    assert!(!app.check_block_is_valid(&g, &t));

    let mut t = b.clone();
    t.transactions.push(Transaction {});
    assert!(!app.check_block_is_valid(&g, &t));

    let mut t = b.clone();
    t.nonce += 1;
    assert!(!app.check_block_is_valid(&g, &t));

    let mut t = b.clone();
    t.header = format!("00{}", &b.header[2..].replace('a', "b"));
    if t.header != b.header {
        assert!(!app.check_block_is_valid(&g, &t));
    }
}

#[test]
fn header_not_meeting_difficulty_is_rejected() {
    let g = Block::genesis_block();
    let b = mined(1, 1000, &g.header, 0);
    let strict = App::with_difficulty(format!("{}x", &b.header[..2]));
    assert!(!strict.check_block_is_valid(&g, &b));
    let loose = App::with_difficulty(String::new());
    assert!(loose.check_block_is_valid(&g, &b));
}

#[test]
fn id_overflow_is_rejected() {
    let app = App::new();
    let mut pred = Block::genesis_block();
    pred.id = u32::MAX;
    let b = mined(0, 1000, &pred.header, 0);
    assert!(!app.check_block_is_valid(&pred, &b));
}

#[test]
fn empty_and_genesis_chains_are_valid() {
    let app = App::new();
    assert!(app.check_chain_is_valid(&vec![]));
    assert!(app.check_chain_is_valid(&vec![Block::genesis_block()]));
}

#[test]
fn chain_of_mined_blocks_is_valid_and_tampering_breaks_it() {
    let app = App::new();
    let chain = valid_chain(3, 100);
    assert!(app.check_chain_is_valid(&chain));
    let mut bad = chain.clone();
    bad[2].header = bad[1].header.clone();
    assert!(!app.check_chain_is_valid(&bad));
}

#[test]
fn choose_chain_prefers_longer_valid_chain() {
    let mut app = ledger_with_genesis();
    let a = valid_chain(1, 100);
    let b = valid_chain(2, 200);
    let r = app.choose_chain(a.clone(), b.clone()).unwrap();
    assert_eq!(r.len(), 3);
    assert_eq!(r[2].header, b[2].header);
    let r = app.choose_chain(b.clone(), a.clone()).unwrap();
    assert_eq!(r.len(), 3);
    assert_eq!(r[1].header, b[1].header);
}

#[test]
fn choose_chain_keeps_local_on_tie() {
    let mut app = ledger_with_genesis();
    let a = valid_chain(2, 100);
    let b = valid_chain(2, 500);
    assert_ne!(a[1].header, b[1].header);
    let r = app.choose_chain(a.clone(), b.clone()).unwrap();
    assert_eq!(r[1].header, a[1].header);
    assert_eq!(r[2].header, a[2].header);
}

#[test]
fn choose_chain_rejects_invalid_side() {
    let mut app = ledger_with_genesis();
    let a = valid_chain(1, 100);
    let mut b = valid_chain(3, 200);
    b[2].header = "00tampered".to_string();
    let r = app.choose_chain(a.clone(), b.clone()).unwrap();
    assert_eq!(r.len(), 2);
    assert_eq!(r[1].header, a[1].header);
    let r = app.choose_chain(b.clone(), a.clone()).unwrap();
    assert_eq!(r.len(), 2);
    assert_eq!(r[1].header, a[1].header);
    assert_eq!(app.blocks.len(), 1);
}

#[test]
fn choose_chain_fails_when_both_invalid() {
    let mut app = ledger_with_genesis();
    let mut a = valid_chain(1, 100);
    a[1].id = 7;
    let mut b = valid_chain(2, 200);
    b[1].timestamp = -1;
    assert_eq!(app.choose_chain(a, b).unwrap_err(), ChainError::BothChainsInvalid);
}

#[test]
fn end_to_end_append_and_reject() {
    let mut app = App::new();
    app.add_genesis_block();
    assert_eq!(app.blocks.len(), 1);
    let genesis_header = app.blocks[0].header.clone();
    let b1 = Block::new(1, genesis_header, vec![]).unwrap();
    assert!(app.add_block_to_chain(b1.clone()));
    assert_eq!(app.blocks.len(), 2);
    assert!(app.check_chain_is_valid(&app.blocks));

    let mut tampered = b1.clone();
    tampered.id = 2;
    assert!(!app.add_block_to_chain(tampered));
    assert_eq!(app.blocks.len(), 2);
    assert_eq!(app.blocks[1].header, b1.header);
}

#[test]
fn append_rejects_stale_timestamp() {
    let mut app = ledger_with_genesis();
    let b1 = mined(1, 1000, "genesis", 0);
    assert!(app.add_block_to_chain(b1.clone()));
    let b2 = mined(2, 1000, &b1.header, 0);
    assert!(!app.add_block_to_chain(b2));
    assert_eq!(app.blocks.len(), 2);
}
