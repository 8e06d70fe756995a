//! The chain state, the pairwise and whole-chain validity rules, and the
//! fork-choice (longest-valid-chain) selector.

use vstd::prelude::*;

use crate::block::Block;
use crate::difficulty::meets_difficulty;
use crate::hashing::block_digest_of;
use crate::hashing::calculate_hash;
use crate::hexcode::hex_decode;
use crate::hexcode::hex_decoded;
use crate::hexcode::hex_encode;
use crate::hexcode::hex_of;
use crate::hexcode::is_hex_seq;
use crate::hexcode::lemma_hex_round_trip;

verus! {

/// The validity rule a block failed, in the fixed order they are checked.
#[derive(Clone, Copy, Debug, PartialEq, Eq, Structural)]
pub enum BlockFault {
    /// Its `prev_hash` does not name the predecessor's `hash`.
    WrongPrevHash,
    /// Its `hash` does not decode to a digest that meets the difficulty.
    BadDifficulty,
    /// Its `block_id` is not the predecessor's plus one.
    OutOfSequence,
    /// Its `hash` does not match the digest of its own fields.
    WrongHash,
}

/// The fork-choice failure: both candidate chains were invalid.
#[derive(Clone, Copy, Debug, PartialEq, Eq, Structural)]
pub enum ForkError {
    BothInvalid,
}

/// The four pairwise validity rules of a non-genesis block against its
/// predecessor.
pub open spec fn block_valid(b: Block, p: Block) -> bool {
    &&& b.prev_hash@ == p.hash@
    &&& is_hex_seq(b.hash@)
    &&& meets_difficulty(hex_decoded(b.hash@))
    &&& b.block_id == p.block_id + 1
    &&& b.hash@ == hex_of(block_digest_of(b.block_id, b.prev_hash@, b.data@, b.timestamp, b.nonce))
}

/// The first validity rule that fails, checked in the fixed order: wrong
/// predecessor hash, then difficulty, then sequence number, then the digest
/// of the block's own fields. `None` when the block is valid.
pub open spec fn block_fault(b: Block, p: Block) -> Option<BlockFault> {
    if b.prev_hash@ != p.hash@ {
        Some(BlockFault::WrongPrevHash)
    } else if !(is_hex_seq(b.hash@) && meets_difficulty(hex_decoded(b.hash@))) {
        Some(BlockFault::BadDifficulty)
    } else if b.block_id != p.block_id + 1 {
        Some(BlockFault::OutOfSequence)
    } else if b.hash@ != hex_of(
        block_digest_of(b.block_id, b.prev_hash@, b.data@, b.timestamp, b.nonce),
    ) {
        Some(BlockFault::WrongHash)
    } else {
        None
    }
}

/// A block is valid exactly when no rule faults it.
pub proof fn lemma_block_valid_iff_no_fault(b: Block, p: Block)
    ensures
        block_valid(b, p) <==> block_fault(b, p) is None,
{
}

/// Whole-chain validity: every adjacent pair past index 0 satisfies the
/// pairwise rules. Index 0 — the genesis block — is trusted unconditionally.
pub open spec fn chain_valid(chain: Seq<Block>) -> bool {
    forall|i: int| 1 <= i < chain.len() ==> #[trigger] block_valid(chain[i], chain[i - 1])
}

/// Genesis invariant: a single-block chain is valid whatever the block holds,
/// because the validity rules apply only to blocks with a predecessor.
pub proof fn lemma_genesis_chain_valid(b: Block)
    ensures
        chain_valid(seq![b]),
{
}

/// Appending a block that is valid against the last block keeps the chain
/// valid.
pub proof fn lemma_chain_extend(chain: Seq<Block>, b: Block)
    requires
        chain_valid(chain),
        chain.len() > 0,
        block_valid(b, chain.last()),
    ensures
        chain_valid(chain.push(b)),
{
    let c2 = chain.push(b);
    assert forall|i: int| 1 <= i < c2.len() implies #[trigger] block_valid(c2[i], c2[i - 1]) by {
        if i < chain.len() {
            assert(block_valid(chain[i], chain[i - 1]));
        } else {
            assert(c2[i] == b);
            assert(c2[i - 1] == chain.last());
        }
    }
}

/// The fork-choice rule on two candidate chains: among valid chains the
/// longer wins and the local one wins ties; a valid chain beats an invalid
/// one; two invalid chains are an unrecoverable inconsistency, `None`.
pub open spec fn fork_choice(local: Seq<Block>, remote: Seq<Block>) -> Option<Seq<Block>> {
    if chain_valid(local) && chain_valid(remote) {
        if local.len() >= remote.len() {
            Some(local)
        } else {
            Some(remote)
        }
    } else if chain_valid(local) {
        Some(local)
    } else if chain_valid(remote) {
        Some(remote)
    } else {
        None
    }
}

/// Fork-choice law, valid candidates: between two valid chains the longer
/// wins, and on equal length the local one wins — ties never cause a
/// replacement.
pub proof fn lemma_fork_choice_valid(local: Seq<Block>, remote: Seq<Block>)
    requires
        chain_valid(local),
        chain_valid(remote),
    ensures
        local.len() >= remote.len() ==> fork_choice(local, remote) == Some(local),
        local.len() < remote.len() ==> fork_choice(local, remote) == Some(remote),
{
}

/// Fork-choice law, mixed candidates: a valid chain beats an invalid one
/// whatever their lengths.
pub proof fn lemma_fork_choice_valid_beats_invalid(local: Seq<Block>, remote: Seq<Block>)
    ensures
        chain_valid(local) && !chain_valid(remote) ==> fork_choice(local, remote) == Some(local),
        !chain_valid(local) && chain_valid(remote) ==> fork_choice(local, remote) == Some(remote),
{
}

/// Fork-choice law, no candidate: two invalid chains yield no winner — the
/// distinct, recoverable both-invalid condition, never a crash.
pub proof fn lemma_fork_choice_both_invalid(local: Seq<Block>, remote: Seq<Block>)
    requires
        !chain_valid(local),
        !chain_valid(remote),
    ensures
        fork_choice(local, remote) is None,
{
}

/// Whenever fork choice names a winner, the winner is a valid chain: a node
/// that only ever commits fork-choice winners never holds an invalid chain.
pub proof fn lemma_fork_choice_winner_valid(local: Seq<Block>, remote: Seq<Block>)
    ensures
        fork_choice(local, remote) matches Some(c) ==> chain_valid(c),
{
}

/// A copy of a chain, block for block.
pub fn clone_chain(chain: &Vec<Block>) -> (r: Vec<Block>)
    ensures
        r@ == chain@,
{
    let r = chain.clone();
    assert(r@ =~= chain@);
    r
}

/// The non-persistent chain state a node owns for its process's lifetime.
pub struct App {
    pub blockchain: Vec<Block>,
}

impl App {
    /// A fresh node: the chain starts empty and gains its genesis block on
    /// the first init signal.
    pub fn new() -> (r: App)
        ensures
            r.blockchain@.len() == 0,
    {
        App { blockchain: Vec::new() }
    }

    /// Installs the genesis block: the fixed sentinel record at index 0,
    /// exempt from the validity rules, timestamped at creation.
    pub fn genesis(&mut self)
        requires
            old(self).blockchain@.len() == 0,
        ensures
            final(self).blockchain@.len() == 1,
            final(self).blockchain@[0].block_id == 0,
            final(self).blockchain@[0].hash@ == "Genesis Hash"@,
            final(self).blockchain@[0].prev_hash@ == "---"@,
            final(self).blockchain@[0].data@ == "Genesis Block"@,
            final(self).blockchain@[0].nonce == 2108,
            chain_valid(final(self).blockchain@),
    {
        let genesis_block = Block {
            block_id: 0,
            hash: "Genesis Hash".to_owned(),
            prev_hash: "---".to_owned(),
            timestamp: crate::block::now_timestamp(),
            data: "Genesis Block".to_owned(),
            nonce: 2108,
        };
        self.blockchain.push(genesis_block);
    }

    /// Checks the four pairwise rules in their fixed order and names the
    /// first that fails.
    pub fn validate_block(&self, block: &Block, prev_block: &Block) -> (r: Result<(), BlockFault>)
        ensures
            r == (match block_fault(*block, *prev_block) {
                None => Ok::<(), BlockFault>(()),
                Some(f) => Err::<(), BlockFault>(f),
            }),
            r is Ok <==> block_valid(*block, *prev_block),
    {
        if !(block.prev_hash == prev_block.hash) {
            return Err(BlockFault::WrongPrevHash);
        }
        let difficulty_ok = match hex_decode(block.hash.as_str()) {
            Some(digest) => crate::difficulty::hash_meets_difficulty(&digest),
            None => false,
        };
        if !difficulty_ok {
            return Err(BlockFault::BadDifficulty);
        }
        if !(prev_block.block_id < u64::MAX && block.block_id == prev_block.block_id + 1) {
            return Err(BlockFault::OutOfSequence);
        }
        let digest = calculate_hash(
            block.block_id,
            block.timestamp,
            block.prev_hash.as_str(),
            block.data.as_str(),
            block.nonce,
        );
        let expected = hex_encode(&digest);
        if !(expected == block.hash) {
            return Err(BlockFault::WrongHash);
        }
        Ok(())
    }

    /// Whether a block passes all four pairwise rules against its
    /// predecessor.
    pub fn is_block_valid(&self, block: &Block, prev_block: &Block) -> (r: bool)
        ensures
            r == block_valid(*block, *prev_block),
    {
        match self.validate_block(block, prev_block) {
            Ok(()) => true,
            Err(_) => false,
        }
    }

    /// Validates a block against the current last block; appends it when it
    /// passes and otherwise leaves the chain unchanged and reports the rule
    /// that failed.
    pub fn try_add_block(&mut self, block: Block) -> (r: Result<(), BlockFault>)
        requires
            old(self).blockchain@.len() > 0,
        ensures
            r == (match block_fault(block, old(self).blockchain@.last()) {
                None => Ok::<(), BlockFault>(()),
                Some(f) => Err::<(), BlockFault>(f),
            }),
            r is Ok ==> final(self).blockchain@ == old(self).blockchain@.push(block),
            r is Err ==> final(self).blockchain@ == old(self).blockchain@,
            chain_valid(old(self).blockchain@) ==> chain_valid(final(self).blockchain@),
    {
        let last_idx = self.blockchain.len() - 1;
        let verdict = self.validate_block(&block, &self.blockchain[last_idx]);
        match verdict {
            Ok(()) => {
                proof {
                    if chain_valid(self.blockchain@) {
                        lemma_chain_extend(self.blockchain@, block);
                    }
                }
                self.blockchain.push(block);
                Ok(())
            },
            Err(f) => Err(f),
        }
    }

    /// Whole-chain validity: every adjacent pair past the genesis block
    /// passes the pairwise rules; trivially true for chains of length 0 or 1.
    pub fn is_chain_valid(&self, chain: &Vec<Block>) -> (r: bool)
        ensures
            r == chain_valid(chain@),
    {
        let n = chain.len();
        if n == 0 {
            return true;
        }
        let mut i: usize = 1;
        while i < n
            invariant
                1 <= i <= n,
                n == chain@.len(),
                forall|j: int| 1 <= j < i ==> #[trigger] block_valid(chain@[j], chain@[j - 1]),
            decreases n - i,
        {
            if !self.is_block_valid(&chain[i], &chain[i - 1]) {
                return false;
            }
            i = i + 1;
        }
        true
    }

    /// The fork-choice selector: returns the winning chain, or the
    /// both-invalid error, exactly as `fork_choice` states; the caller
    /// decides what to keep on error.
    pub fn choose_chain(&self, local: Vec<Block>, remote: Vec<Block>) -> (r: Result<
        Vec<Block>,
        ForkError,
    >)
        ensures
            match fork_choice(local@, remote@) {
                Some(c) => r matches Ok(v) && v@ == c,
                None => r == Err::<Vec<Block>, ForkError>(ForkError::BothInvalid),
            },
    {
        let is_local_valid = self.is_chain_valid(&local);
        let is_remote_valid = self.is_chain_valid(&remote);
        if is_local_valid && is_remote_valid {
            if local.len() >= remote.len() {
                Ok(local)
            } else {
                Ok(remote)
            }
        } else if is_remote_valid {
            Ok(remote)
        } else if is_local_valid {
            Ok(local)
        } else {
            Err(ForkError::BothInvalid)
        }
    }

    /// Mines the next block over the given payload — `id` one past the last
    /// block's, `prev_hash` the last block's `hash` — appends it, and returns
    /// a copy for broadcasting. The new block is valid against the old last
    /// block by construction, so a valid chain stays valid. `None`, with the
    /// chain unchanged, only if the last id cannot be incremented or no nonce
    /// at all worked.
    pub fn handle_create_block(&mut self, data: String) -> (r: Option<Block>)
        requires
            old(self).blockchain@.len() > 0,
        ensures
            r matches Some(b) ==> {
                &&& final(self).blockchain@ == old(self).blockchain@.push(b)
                &&& b.data@ == data@
                &&& b.block_id == old(self).blockchain@.last().block_id + 1
                &&& b.prev_hash@ == old(self).blockchain@.last().hash@
                &&& block_valid(b, old(self).blockchain@.last())
                &&& (chain_valid(old(self).blockchain@) ==> chain_valid(final(self).blockchain@))
            },
            r is None ==> final(self).blockchain@ == old(self).blockchain@,
    {
        let last_idx = self.blockchain.len() - 1;
        let last_id = self.blockchain[last_idx].block_id;
        if last_id == u64::MAX {
            return None;
        }
        let prev_hash = self.blockchain[last_idx].hash.clone();
        match Block::new(last_id + 1, prev_hash, data) {
            Some(b) => {
                proof {
                    lemma_hex_round_trip(
                        block_digest_of(b.block_id, b.prev_hash@, b.data@, b.timestamp, b.nonce),
                    );
                    assert(block_valid(b, self.blockchain@.last()));
                    if chain_valid(self.blockchain@) {
                        lemma_chain_extend(self.blockchain@, b);
                    }
                }
                let copy = b.clone();
                self.blockchain.push(b);
                Some(copy)
            },
            None => None,
        }
    }
}

} // verus!
