//! The canonical block digest.
//!
//! A block's five consensus fields are serialized into a canonical JSON
//! object (an object whose keys render in sorted order, so the text is a
//! function of the field values alone) and the SHA-256 digest of that text's
//! UTF-8 bytes is the block's hash material. This composition is the single
//! source of truth for "does this block's hash match its content".

use vstd::prelude::*;

verus! {

/// The canonical JSON text of the five consensus fields. A function of its
/// arguments alone: the serializer renders object keys in sorted order and
/// escapes strings deterministically.
pub uninterp spec fn record_text_of(
    block_id: u64,
    prev_hash: Seq<char>,
    data: Seq<char>,
    timestamp: i64,
    nonce: u64,
) -> Seq<char>;

/// The SHA-256 digest of a text's UTF-8 bytes. A function of the characters
/// alone.
pub uninterp spec fn sha256_of(text: Seq<char>) -> Seq<u8>;

/// The digest that certifies a block's content: SHA-256 over the canonical
/// JSON text of the five consensus fields.
pub open spec fn block_digest_of(
    block_id: u64,
    prev_hash: Seq<char>,
    data: Seq<char>,
    timestamp: i64,
    nonce: u64,
) -> Seq<u8> {
    sha256_of(record_text_of(block_id, prev_hash, data, timestamp, nonce))
}

/// Relies on serde_json: a `Value::Object` renders with its keys in sorted
/// order and deterministic escaping, so the text depends on the five field
/// values alone.
#[verifier::external_body]
fn encode_block_record(
    block_id: u64,
    prev_hash: &str,
    data: &str,
    timestamp: i64,
    nonce: u64,
) -> (r: String)
    ensures
        r@ == record_text_of(block_id, prev_hash@, data@, timestamp, nonce),
{
    let mut m = serde_json::Map::new();
    m.insert("block_id".to_owned(), serde_json::Value::from(block_id));
    m.insert("prev_hash".to_owned(), serde_json::Value::from(prev_hash));
    m.insert("data".to_owned(), serde_json::Value::from(data));
    m.insert("timestamp".to_owned(), serde_json::Value::from(timestamp));
    m.insert("nonce".to_owned(), serde_json::Value::from(nonce));
    serde_json::Value::Object(m).to_string()
}

/// Relies on sha2::Sha256: the digest of the input's UTF-8 bytes, always 32
/// bytes long and a function of the input alone.
#[verifier::external_body]
fn sha256_text(text: &str) -> (r: Vec<u8>)
    ensures
        r@ == sha256_of(text@),
        r@.len() == 32,
{
    <sha2::Sha256 as sha2::Digest>::digest(text.as_bytes()).as_slice().to_owned()
}

/// Computes the canonical digest of the five consensus fields.
pub fn calculate_hash(block_id: u64, timestamp: i64, prev_hash: &str, data: &str, nonce: u64) -> (r:
    Vec<u8>)
    ensures
        r@ == block_digest_of(block_id, prev_hash@, data@, timestamp, nonce),
        r@.len() == 32,
{
    let text = encode_block_record(block_id, prev_hash, data, timestamp, nonce);
    sha256_text(text.as_str())
}

/// Hash determinism: the canonical digest is a mathematical function of the
/// five fields alone, so equal fields give equal digests across repeated
/// invocations and across processes.
pub proof fn lemma_hash_deterministic(
    id_a: u64,
    prev_a: Seq<char>,
    data_a: Seq<char>,
    ts_a: i64,
    nonce_a: u64,
    id_b: u64,
    prev_b: Seq<char>,
    data_b: Seq<char>,
    ts_b: i64,
    nonce_b: u64,
)
    requires
        id_a == id_b,
        prev_a == prev_b,
        data_a == data_b,
        ts_a == ts_b,
        nonce_a == nonce_b,
    ensures
        block_digest_of(id_a, prev_a, data_a, ts_a, nonce_a) == block_digest_of(
            id_b,
            prev_b,
            data_b,
            ts_b,
            nonce_b,
        ),
{
}

} // verus!
