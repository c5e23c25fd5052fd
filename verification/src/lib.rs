//! The coordination logic of a proof-of-work miner: how the nonce space is
//! split among workers, what one worker does with each hash, how the workers'
//! results are reduced to one solution, and the cycle that drives a search
//! from one submission to the next.

pub mod bus;
mod chance;
pub mod deadline;
pub mod hash;
pub mod miner;
pub mod partition;
pub mod search;
pub mod state;
pub mod worker;
