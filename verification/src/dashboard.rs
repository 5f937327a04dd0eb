//! What the user interface is shown.

use crate::natural::Natural;
use crate::text::decimal;
use crate::types::{Block, MyShare, PoolStats, Stats};
use crate::wallet::nat_to_plain_string;
use vstd::prelude::*;

verus! {

/// The state of the network. Amounts and heights are plain decimal texts.
#[derive(Clone, Debug)]
pub struct NetworkStats {
    pub height: String,
    pub difficulty_bits: u32,
    pub blocks_until_retarget: u32,
    pub retarget_interval_blocks: u32,
    pub last_retarget_at_nanos: i64,
    pub target_block_time_nanos: i64,
    pub next_halving_height: String,
    pub current_reward: String,
    pub mining_fee_e8s: String,
    pub last_block_at_nanos: Option<i64>,
}

/// A number as 32 bits, zero if it does not fit.
pub open spec fn u32_or_zero(n: nat) -> u32 {
    if n <= u32::MAX {
        n as u32
    } else {
        0
    }
}

/// A number as 64 signed bits, if it fits.
pub open spec fn fit_i64(n: int) -> Option<i64> {
    if i64::MIN <= n <= i64::MAX {
        Some(n as i64)
    } else {
        None
    }
}

/// A number as 64 signed bits, zero if it does not fit.
pub open spec fn i64_or_zero(n: int) -> i64 {
    match fit_i64(n) {
        Some(m) => m,
        None => 0,
    }
}

/// The time of the block mined last, if blocks are known and the time fits.
pub open spec fn last_block_time(blocks: Option<Seq<Block>>) -> Option<i64> {
    match blocks {
        Some(list) => if list.len() > 0 {
            fit_i64(list.last().timestamp@)
        } else {
            None
        },
        None => None,
    }
}

/// Reads a number as 32 bits, zero if it does not fit.
fn to_u32_or_zero(n: &Natural) -> (r: u32)
    ensures
        r == u32_or_zero(n@),
{
    match n.to_u32() {
        Some(m) => m,
        None => 0,
    }
}

/// Puts the statistics of the network together with the time of the block mined last.
/// The blocks are listed oldest first; where they could not be had, the time is left out.
pub fn network_stats(stats: &Stats, recent: &Option<Vec<Block>>) -> (shown: NetworkStats)
    ensures
        shown.height@ == decimal(stats.height@),
        shown.difficulty_bits == u32_or_zero(stats.difficultyBits@),
        shown.blocks_until_retarget == u32_or_zero(stats.blocksUntilRetarget@),
        shown.retarget_interval_blocks == u32_or_zero(stats.retargetIntervalBlocks@),
        shown.last_retarget_at_nanos == i64_or_zero(stats.lastRetargetAt@),
        shown.target_block_time_nanos == i64_or_zero(stats.targetBlockTimeNanos@ as int),
        shown.next_halving_height@ == decimal(stats.nextHalvingHeight@),
        shown.current_reward@ == decimal(stats.currentReward@),
        shown.mining_fee_e8s@ == decimal(stats.miningFeeE8s@),
        shown.last_block_at_nanos == last_block_time(
            match recent {
                Some(blocks) => Some(blocks@),
                None => None,
            },
        ),
{
    let last_block_at_nanos: Option<i64> = match recent {
        Some(blocks) => if blocks.len() > 0 {
            blocks[blocks.len() - 1].timestamp.to_i64()
        } else {
            None
        },
        None => None,
    };
    NetworkStats {
        height: nat_to_plain_string(&stats.height),
        difficulty_bits: to_u32_or_zero(&stats.difficultyBits),
        blocks_until_retarget: to_u32_or_zero(&stats.blocksUntilRetarget),
        retarget_interval_blocks: to_u32_or_zero(&stats.retargetIntervalBlocks),
        last_retarget_at_nanos: match stats.lastRetargetAt.to_i64() {
            Some(n) => n,
            None => 0,
        },
        target_block_time_nanos: match stats.targetBlockTimeNanos.to_i64() {
            Some(n) => n,
            None => 0,
        },
        next_halving_height: nat_to_plain_string(&stats.nextHalvingHeight),
        current_reward: nat_to_plain_string(&stats.currentReward),
        mining_fee_e8s: nat_to_plain_string(&stats.miningFeeE8s),
        last_block_at_nanos,
    }
}

/// A miner's standing in the pool: shares of this round, and the reward to be claimed.
pub fn pool_share_texts(share: &MyShare) -> (texts: (String, String))
    ensures
        texts.0@ == decimal(share.sharesThisRound@),
        texts.1@ == decimal(share.pendingReward@),
{
    (nat_to_plain_string(&share.sharesThisRound), nat_to_plain_string(&share.pendingReward))
}

/// The pool's present round: all shares, the miners of the round, and those mining now.
pub fn pool_stats_texts(stats: &PoolStats) -> (texts: (String, String, String))
    ensures
        texts.0@ == decimal(stats.currentRoundTotalShares@),
        texts.1@ == decimal(stats.activeMinersThisRound@),
        texts.2@ == decimal(stats.activeMinersNow@),
{
    (
        nat_to_plain_string(&stats.currentRoundTotalShares),
        nat_to_plain_string(&stats.activeMinersThisRound),
        nat_to_plain_string(&stats.activeMinersNow),
    )
}

/// Numbers are shown as they are where they fit: in 32 bits, or in 64 bits with a sign.
/// One that does not fit shows as zero.
pub proof fn numbers_that_fit_are_shown(n: nat, m: int)
    ensures
        n < 0x1_0000_0000 ==> u32_or_zero(n) == n,
        n >= 0x1_0000_0000 ==> u32_or_zero(n) == 0,
        -0x8000_0000_0000_0000 <= m < 0x8000_0000_0000_0000 ==> i64_or_zero(m) == m
            && fit_i64(m) == Some(m as i64),
        !(-0x8000_0000_0000_0000 <= m < 0x8000_0000_0000_0000) ==> i64_or_zero(m) == 0
            && fit_i64(m) is None,
{
}

/// The time of the last block is that of the block at the end of the list, whatever
/// blocks come before it. Without a list, or without a block in it, there is none.
pub proof fn the_last_block_counts(earlier: Seq<Block>, last: Block)
    ensures
        last_block_time(Some(earlier.push(last))) == (if -0x8000_0000_0000_0000
            <= last.timestamp@ < 0x8000_0000_0000_0000 {
            Some(last.timestamp@ as i64)
        } else {
            None
        }),
        last_block_time(Some(Seq::<Block>::empty())) is None,
        last_block_time(None) is None,
{
}

} // verus!
