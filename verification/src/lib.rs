//! A single-node participant in a peer-to-peer ledger: an ordered chain of
//! data-bearing blocks extended by proof-of-work, validated pairwise, and
//! synchronized against remote chains by a longest-valid-chain rule.

pub mod block;
pub mod chain;
pub mod difficulty;
pub mod events;
pub mod hashing;
pub mod hexcode;
pub mod peers;
pub mod strutil;
