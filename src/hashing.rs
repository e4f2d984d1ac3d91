//! Canonical encoding of a block's content and its SHA-256 digest.
use vstd::prelude::*;
use vstd::string::*;
use vstd::utf8::encode_utf8;
use crate::block::Transaction;

verus! {

/// The decimal digit `d` (below ten) as a character.
pub open spec fn digit_char(d: nat) -> char {
    ((d + 48) as u8) as char
}

/// Decimal notation of a natural number, without leading zeros.
pub open spec fn decimal(n: nat) -> Seq<char>
    decreases n,
{
    if n < 10 {
        seq![digit_char(n)]
    } else {
        decimal(n / 10).push(digit_char(n % 10))
    }
}

/// Decimal notation of an integer, with a leading `-` when it is negative.
pub open spec fn signed_decimal(i: int) -> Seq<char> {
    if i < 0 {
        seq!['-'] + decimal((-i) as nat)
    } else {
        decimal(i as nat)
    }
}

/// What `serde_json::to_string` makes of a string: the JSON string literal.
pub uninterp spec fn json_quoted(s: Seq<char>) -> Seq<char>;

/// What SHA-256 makes of a byte sequence.
pub uninterp spec fn sha256_of(data: Seq<u8>) -> Seq<u8>;

/// The lowercase hexadecimal digit for a value below sixteen.
pub open spec fn hex_char(v: u8) -> char {
    if v < 10 {
        ((v + 48) as u8) as char
    } else {
        ((v + 87) as u8) as char
    }
}

/// Lowercase hexadecimal notation of bytes: two digits per byte, high nibble first.
pub open spec fn hex_of(b: Seq<u8>) -> Seq<char> {
    Seq::new(
        2 * b.len(),
        |i: int|
            if i % 2 == 0 {
                hex_char(b[i / 2] / 16)
            } else {
                hex_char(b[i / 2] % 16)
            },
    )
}

/// `n` transactions, each an empty JSON object, separated by commas.
pub open spec fn tx_items(n: nat) -> Seq<char>
    decreases n,
{
    if n == 0 {
        Seq::empty()
    } else if n == 1 {
        "{}"@
    } else {
        tx_items((n - 1) as nat) + ",{}"@
    }
}

/// The JSON array of `n` transactions.
pub open spec fn tx_list(n: nat) -> Seq<char> {
    "["@ + tx_items(n) + "]"@
}

/// The canonical encoding of a block's content, fields in the fixed order
/// id, timestamp, prev_hash, transactions, nonce.
pub open spec fn canonical_content(
    id: u32,
    timestamp: i64,
    prev_hash: Seq<char>,
    n_tx: nat,
    nonce: u64,
) -> Seq<char> {
    "{\"id\":"@ + decimal(id as nat) + ",\"timestamp\":"@ + signed_decimal(timestamp as int)
        + ",\"prev_hash\":"@ + json_quoted(prev_hash) + ",\"transactions\":"@ + tx_list(n_tx)
        + ",\"nonce\":"@ + decimal(nonce as nat) + "}"@
}

/// The digest of a block's content: SHA-256 of the UTF-8 bytes of its canonical encoding.
pub open spec fn block_digest(
    id: u32,
    timestamp: i64,
    prev_hash: Seq<char>,
    n_tx: nat,
    nonce: u64,
) -> Seq<u8> {
    sha256_of(encode_utf8(canonical_content(id, timestamp, prev_hash, n_tx, nonce)))
}

/// The header a block with this content carries: its digest in lowercase hex.
pub open spec fn block_header(
    id: u32,
    timestamp: i64,
    prev_hash: Seq<char>,
    n_tx: nat,
    nonce: u64,
) -> Seq<char> {
    hex_of(block_digest(id, timestamp, prev_hash, n_tx, nonce))
}

/// Relies on serde_json::to_string on a `u64`: JSON writes an unsigned integer
/// in decimal notation, and serialising an integer cannot fail.
#[verifier::external_body]
fn json_u64(n: u64) -> (r: String)
    ensures
        r@ == decimal(n as nat),
{
    serde_json::to_string(&n).unwrap_or_default()
}

/// Relies on serde_json::to_string on an `i64`: JSON writes a signed integer
/// in decimal notation with a leading minus sign, and this cannot fail.
#[verifier::external_body]
fn json_i64(i: i64) -> (r: String)
    ensures
        r@ == signed_decimal(i as int),
{
    serde_json::to_string(&i).unwrap_or_default()
}

/// Relies on serde_json::to_string on a `str`: the escaped JSON string literal,
/// a function of the characters alone; serialising a string cannot fail.
#[verifier::external_body]
fn json_str(s: &str) -> (r: String)
    ensures
        r@ == json_quoted(s@),
{
    serde_json::to_string(s).unwrap_or_default()
}

/// Relies on sha2's `Sha256::digest`: a 32-byte digest, a function of the input alone.
#[verifier::external_body]
fn sha256(data: &[u8]) -> (r: Vec<u8>)
    ensures
        r@ == sha256_of(data@),
        r@.len() == 32,
{
    <sha2::Sha256 as sha2::Digest>::digest(data).to_vec()
}

/// Relies on hex::encode: two lowercase hex digits per byte, high nibble first.
#[verifier::external_body]
pub(crate) fn hex_encode(b: &[u8]) -> (r: String)
    ensures
        r@ == hex_of(b@),
{
    hex::encode(b)
}

/// The JSON array of `n` empty transaction objects.
fn encode_transactions(n: usize) -> (r: String)
    ensures
        r@ == tx_list(n as nat),
{
    let mut s = String::from_str("[");
    let mut i: usize = 0;
    while i < n
        invariant
            i <= n,
            s@ == "["@ + tx_items(i as nat),
        decreases n - i,
    {
        if i == 0 {
            s.append("{}");
        } else {
            s.append(",{}");
        }
        i = i + 1;
    }
    s.append("]");
    s
}

/// The canonical encoding of a block's content.
pub fn canonical_encoding(
    id: u32,
    timestamp: i64,
    prev_hash: &str,
    n_tx: usize,
    nonce: u64,
) -> (r: String)
    ensures
        r@ == canonical_content(id, timestamp, prev_hash@, n_tx as nat, nonce),
{
    let mut s = String::from_str("{\"id\":");
    let part = json_u64(id as u64);
    s.append(part.as_str());
    s.append(",\"timestamp\":");
    let part = json_i64(timestamp);
    s.append(part.as_str());
    s.append(",\"prev_hash\":");
    let part = json_str(prev_hash);
    s.append(part.as_str());
    s.append(",\"transactions\":");
    let part = encode_transactions(n_tx);
    s.append(part.as_str());
    s.append(",\"nonce\":");
    let part = json_u64(nonce);
    s.append(part.as_str());
    s.append("}");
    s
}

/// The SHA-256 digest of the canonical encoding of a block's content.
pub fn calculate_hash(
    id: &u32,
    timestamp: &i64,
    prev_hash: &String,
    transactions: &Vec<Transaction>,
    nonce: &u64,
) -> (r: Vec<u8>)
    ensures
        r@ == block_digest(*id, *timestamp, prev_hash@, transactions@.len(), *nonce),
        r@.len() == 32,
{
    let content = canonical_encoding(*id, *timestamp, prev_hash.as_str(), transactions.len(), *nonce);
    sha256(content.as_str().as_bytes())
}

} // verus!
