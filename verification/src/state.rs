//! Snapshots of the ledger's accounts, as far as the miner reads them.

use vstd::prelude::*;

verus! {

/// A miner's proof account.
#[derive(Clone, Copy, Debug, PartialEq, Eq)]
pub struct Proof {
    /// The challenge of the current search.
    pub challenge: [u8; 32],
    /// When the miner last handed in a hash, in seconds.
    pub last_hash_at: i64,
    /// The miner's stake.
    pub balance: u64,
}

/// The program's configuration account.
#[derive(Clone, Copy, Debug, PartialEq, Eq)]
pub struct Config {
    /// The largest stake on the network.
    pub top_balance: u64,
    /// When the epoch was last reset, in seconds.
    pub last_reset_at: i64,
}

} // verus!
