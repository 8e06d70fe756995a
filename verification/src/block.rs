//! The block model and the proof-of-work miner.

use vstd::prelude::*;

use crate::difficulty::meets_difficulty;
use crate::hashing::block_digest_of;
use crate::hashing::calculate_hash;
use crate::hexcode::hex_encode;
use crate::hexcode::hex_of;

verus! {

/// The atomic ledger unit. `hash` is the lowercase hex rendering of the
/// canonical digest of the other five fields; `prev_hash` names the
/// predecessor's `hash`; `timestamp` is recorded at mining time and hashed
/// but not otherwise validated; `data` is an opaque payload.
pub struct Block {
    pub block_id: u64,
    pub hash: String,
    pub prev_hash: String,
    pub timestamp: i64,
    pub data: String,
    pub nonce: u64,
}

impl Clone for Block {
    fn clone(&self) -> (r: Self)
        ensures
            r == *self,
    {
        Block {
            block_id: self.block_id,
            hash: self.hash.clone(),
            prev_hash: self.prev_hash.clone(),
            timestamp: self.timestamp,
            data: self.data.clone(),
            nonce: self.nonce,
        }
    }
}

/// Relies on chrono's `Utc::now`: seconds since the epoch by the machine's
/// clock. The clock decides the value, so nothing is promised of it.
#[verifier::external_body]
pub(crate) fn now_timestamp() -> i64 {
    chrono::Utc::now().timestamp()
}

/// Searches nonces from 0 upward for one whose canonical digest meets the
/// difficulty; returns the first such nonce with the digest's hex rendering.
/// Returns `None` only if every nonce fails, so the search, though unbounded
/// in intent, provably terminates.
pub fn mine_block(block_id: u64, timestamp: i64, prev_hash: &str, data: &str) -> (r: Option<
    (u64, String),
>)
    ensures
        r matches Some((nonce, hash)) ==> {
            &&& hash@ == hex_of(block_digest_of(block_id, prev_hash@, data@, timestamp, nonce))
            &&& meets_difficulty(block_digest_of(block_id, prev_hash@, data@, timestamp, nonce))
            &&& forall|n: u64|
                n < nonce ==> !meets_difficulty(
                    #[trigger] block_digest_of(block_id, prev_hash@, data@, timestamp, n),
                )
        },
        r is None ==> forall|n: u64|
            !meets_difficulty(#[trigger] block_digest_of(block_id, prev_hash@, data@, timestamp, n)),
{
    let mut nonce: u64 = 0;
    loop
        invariant
            forall|n: u64|
                n < nonce ==> !meets_difficulty(
                    #[trigger] block_digest_of(block_id, prev_hash@, data@, timestamp, n),
                ),
        decreases u64::MAX - nonce,
    {
        let digest = calculate_hash(block_id, timestamp, prev_hash, data, nonce);
        if crate::difficulty::hash_meets_difficulty(&digest) {
            return Some((nonce, hex_encode(&digest)));
        }
        if nonce == u64::MAX {
            return None;
        }
        nonce = nonce + 1;
    }
}

impl Block {
    /// Mines the next block: records the clock, searches for a nonce whose
    /// digest meets the difficulty, and assembles the self-certifying block.
    /// `None` only if no nonce at all worked for the recorded timestamp.
    pub fn new(block_id: u64, prev_hash: String, data: String) -> (r: Option<Block>)
        ensures
            r matches Some(b) ==> {
                &&& b.block_id == block_id
                &&& b.prev_hash@ == prev_hash@
                &&& b.data@ == data@
                &&& b.hash@ == hex_of(
                    block_digest_of(block_id, prev_hash@, data@, b.timestamp, b.nonce),
                )
                &&& meets_difficulty(
                    block_digest_of(block_id, prev_hash@, data@, b.timestamp, b.nonce),
                )
            },
    {
        let timestamp = now_timestamp();
        match mine_block(block_id, timestamp, prev_hash.as_str(), data.as_str()) {
            Some((nonce, hash)) => Some(
                Block { block_id, hash, prev_hash, timestamp, data, nonce },
            ),
            None => None,
        }
    }
}

} // verus!
