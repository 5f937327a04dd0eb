//! The records and variants that are exchanged with the canisters: the mother
//! canister, the mining pool and the token ledgers. Field names are those of the
//! wire format.
#![allow(non_snake_case)]

use crate::natural::{Integer, Natural};
use crate::principal::Principal;
use vstd::prelude::*;

verus! {

/// The part of the mother canister's statistics that the dashboard shows.
#[derive(Debug)]
pub struct Stats {
    pub height: Natural,
    pub difficultyBits: Natural,
    pub blocksUntilRetarget: Natural,
    pub retargetIntervalBlocks: Natural,
    pub lastRetargetAt: Integer,
    pub targetBlockTimeNanos: Natural,
    pub nextHalvingHeight: Natural,
    pub currentReward: Natural,
    pub miningFeeE8s: Natural,
}

/// A block that was mined.
#[derive(Debug)]
pub struct Block {
    pub hash: Vec<u8>,
    pub height: Natural,
    pub miner: Principal,
    pub reward: Natural,
    pub timestamp: Integer,
}

/// What a miner has won so far.
#[derive(Debug)]
pub struct LeaderboardEntry {
    pub blocksFound: Natural,
    pub miner: Principal,
    pub totalReward: Natural,
}

/// What there is to mine.
#[derive(Debug)]
pub struct Work {
    pub difficultyBits: Natural,
    pub height: Natural,
    pub miningFeeE8s: Natural,
    pub previousHash: Vec<u8>,
    pub reward: Natural,
}

/// How the pool wants its shares.
#[derive(Debug)]
pub struct PoolConfig {
    pub shareDifficultyBits: Natural,
    pub networkDifficultyBits: Natural,
    pub height: Natural,
}

/// A miner's standing in the pool.
#[derive(Debug)]
pub struct MyShare {
    pub sharesThisRound: Natural,
    pub pendingReward: Natural,
}

/// The pool's statistics.
#[derive(Debug)]
pub struct PoolStats {
    pub blocksWon: Natural,
    pub totalSharesAllTime: Natural,
    pub totalPikoDistributed: Natural,
    pub currentRoundTotalShares: Natural,
    pub activeMinersThisRound: Natural,
    pub activeMinersNow: Natural,
}

/// What the pool says of a share that it took.
#[derive(Debug)]
pub struct ShareOutcome {
    pub accepted: bool,
    pub isBlockWinner: bool,
    pub poolSubmitResult: Option<SubmitResult>,
}

/// Why the pool did not take a share.
#[derive(Debug)]
pub enum ShareError {
    Anonymous,
    BelowShareTarget,
    DuplicateNonce,
    StaleWork,
    TooSoon(TooSoonInfo),
}

/// The pool's answer to a share.
pub type ShareResult = Result<ShareOutcome, ShareError>;

/// A block that was accepted.
#[derive(Debug)]
pub struct SubmitOk {
    pub hash: Vec<u8>,
    pub height: Natural,
    pub reward: Natural,
}

/// How long to wait before trying again.
#[derive(Debug)]
pub struct TooSoonInfo {
    pub retryAfterNanos: Natural,
}

/// Why the mining fee could not be collected.
#[derive(Debug)]
pub enum TransferFromError {
    BadBurn { min_burn_amount: Natural },
    BadFee { expected_fee: Natural },
    CreatedInFuture { ledger_time: u64 },
    Duplicate { duplicate_of: Natural },
    GenericError { error_code: Natural, message: String },
    InsufficientAllowance { allowance: Natural },
    InsufficientFunds { balance: Natural },
    TemporarilyUnavailable,
    TooOld,
}

/// Why a proof was not accepted.
#[derive(Debug)]
pub enum SubmitError {
    Anonymous,
    IcpFeeFailed(TransferFromError),
    InvalidProof,
    NothingToClaim,
    StaleWork,
    TooSoon(TooSoonInfo),
}

/// The mother canister's answer to a proof.
pub type SubmitResult = Result<SubmitOk, SubmitError>;

/// An account on a ledger.
#[derive(Debug)]
pub struct Account {
    pub owner: Principal,
    pub subaccount: Option<Vec<u8>>,
}

/// A request to let a spender take tokens.
#[derive(Debug)]
pub struct ApproveArgs {
    pub fee: Option<Natural>,
    pub memo: Option<Vec<u8>>,
    pub from_subaccount: Option<Vec<u8>>,
    pub created_at_time: Option<u64>,
    pub amount: Natural,
    pub expected_allowance: Option<Natural>,
    pub expires_at: Option<u64>,
    pub spender: Account,
}

/// Why an approval was refused.
#[derive(Debug)]
pub enum ApproveError {
    BadFee { expected_fee: Natural },
    InsufficientFunds { balance: Natural },
    AllowanceChanged { current_allowance: Natural },
    Expired { ledger_time: u64 },
    TooOld,
    CreatedInFuture { ledger_time: u64 },
    Duplicate { duplicate_of: Natural },
    TemporarilyUnavailable,
    GenericError { error_code: Natural, message: String },
}

/// A ledger's answer to an approval.
pub type ApproveResult = Result<Natural, ApproveError>;

/// A request to move tokens.
#[derive(Debug)]
pub struct TransferArg {
    pub from_subaccount: Option<Vec<u8>>,
    pub to: Account,
    pub amount: Natural,
    pub fee: Option<Natural>,
    pub memo: Option<Vec<u8>>,
    pub created_at_time: Option<u64>,
}

/// Why a transfer was refused.
#[derive(Debug)]
pub enum TransferError {
    BadFee { expected_fee: Natural },
    BadBurn { min_burn_amount: Natural },
    InsufficientFunds { balance: Natural },
    TooOld,
    CreatedInFuture { ledger_time: u64 },
    TemporarilyUnavailable,
    Duplicate { duplicate_of: Natural },
    GenericError { error_code: Natural, message: String },
}

/// A ledger's answer to a transfer.
pub type TransferResult = Result<Natural, TransferError>;

/// A question for what a spender may still take from an account.
#[derive(Debug)]
pub struct AllowanceArgs {
    pub account: Account,
    pub spender: Account,
}

/// What a spender may still take.
#[derive(Debug)]
pub struct Allowance {
    pub allowance: Natural,
    pub expires_at: Option<u64>,
}

} // verus!
