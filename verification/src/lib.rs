//! The decisions behind a native proof-of-work miner, proved against their
//! contracts: the hash search and its partition of the nonce space, the checks
//! made on what a graphics device reports, the money arithmetic, the requests
//! sent to the canisters and the state machine that supervises a session.

pub mod bytes;
pub mod difficulty;
pub mod miner;
pub mod gpu;
pub mod text;
pub mod natural;
pub mod principal;
pub mod types;
pub mod errors;
pub mod agent;
pub mod wallet;
pub mod dashboard;
pub mod identity;
pub mod supervisor;
pub mod commands;
