//! What each event leads to, told in terms of what goes in and what comes out: the
//! records that the canisters sent, and the actions that are carried out.

use super::model::{expects, has_room, step, HashReport, Search, Winner};
use super::{seen, Action, Event, Phase, Supervisor};
use crate::miner::MiningJob;
use crate::natural::Natural;
use crate::text::decimal;
use crate::types::{
    PoolConfig, ShareResult, SubmitError, SubmitResult, Work,
};
use crate::wallet::token_text;
use vstd::prelude::*;

verus! {

/// Whether a session that takes an event becomes `after` and wants `actions` done.
pub open spec fn leads_to(s: Supervisor, e: Event, after: Supervisor, actions: Seq<Action>) -> bool {
    (after@, seen(actions)) == step(s@, e@)
}

/// Whether a session may be given an event.
pub open spec fn may_take(s: Supervisor, e: Event) -> bool {
    expects(s@, e@) && has_room(s@, e@)
}

/// Whether two states of a session show the same counts.
pub open spec fn same_counts(s: Supervisor, t: Supervisor) -> bool {
    s.session_attempts == t.session_attempts && s.session_blocks == t.session_blocks
}

/// Whether an action is a message to the user interface about a session in this state.
pub open spec fn tells(
    a: Action,
    s: Supervisor,
    message: Seq<char>,
    kind: Seq<char>,
    stopped: bool,
) -> bool {
    a matches Action::Emit(p) && {
        &&& p.hashrate == 0
        &&& p.session_attempts == s.session_attempts
        &&& p.session_blocks == s.session_blocks
        &&& p.message@ == message
        &&& p.message_kind@ == kind
        &&& p.stopped == stopped
    }
}

/// Actions are seen one by one.
proof fn seen_one_by_one(actions: Seq<Action>)
    ensures
        seen(actions).len() == actions.len(),
        forall|i: int| 0 <= i < actions.len() ==> #[trigger] seen(actions)[i] == actions[i]@,
        forall|i: int| 0 <= i < actions.len() ==> seen(actions)[i] == (#[trigger] actions[i])@,
{
}

/// A round begins by fetching work, unless the flag that stops mining is up: then the
/// session is over.
pub proof fn a_round_begins(s: Supervisor, stop: bool, after: Supervisor, actions: Seq<Action>)
    requires
        s.phase is Idle,
        leads_to(s, Event::Begin { stop }, after, actions),
    ensures
        may_take(s, Event::Begin { stop }),
        same_counts(s, after),
        stop ==> actions.len() == 0 && after.phase is Finished,
        !stop ==> actions.len() == 1 && actions[0] is FetchWork && after.phase is FetchingWork,
{
    seen_one_by_one(actions);
}

/// Work that could not be had is asked for again after three seconds, and the user
/// interface is told why.
pub proof fn missing_work_is_asked_for_again(
    s: Supervisor,
    why: String,
    pool_requested: bool,
    after: Supervisor,
    actions: Seq<Action>,
)
    requires
        s.phase is FetchingWork,
        leads_to(s, Event::GotWork { work: Err(why), pool_requested }, after, actions),
    ensures
        may_take(s, Event::GotWork { work: Err(why), pool_requested }),
        same_counts(s, after),
        after.phase is Idle,
        actions.len() == 2,
        tells(actions[0], s, "Failed to fetch work: "@ + why@, "critical"@, false),
        actions[1] == Action::Sleep(3000),
{
    seen_one_by_one(actions);
}

/// What is known of an amount that was asked for: nothing counts as zero.
pub open spec fn known(amount: Option<Natural>) -> nat {
    match amount {
        Some(n) => n@,
        None => 0,
    }
}

/// How a round goes on once the allowance and the balance are known. If either is less
/// than the mining fee and 10000 units for the ledger, the session is over. Otherwise a
/// search is started for the work that was handed out: on its very previous hash, at
/// its height and at its difficulty. A height or a difficulty that does not fit counts
/// as zero; a previous hash that is not 32 bytes long makes the round start over.
pub open spec fn round_goes_on(
    s: Supervisor,
    work: Work,
    share_bits: Option<u32>,
    allowance: nat,
    balance: nat,
    gpu_requested: bool,
    after: Supervisor,
    actions: Seq<Action>,
) -> bool {
    let cost = work.miningFeeE8s@ + 10_000;
    &&& same_counts(s, after)
    &&& if allowance < cost || balance < cost {
        &&& after.phase is Finished
        &&& actions.len() == 2
        &&& actions[0] is SetStop
        &&& share_bits is None ==> tells(
            actions[1],
            s,
            "Mining stopped: insufficient ICP allowance/balance -- approve more ICP to keep mining."@,
            "critical"@,
            true,
        )
        &&& share_bits is Some ==> tells(
            actions[1],
            s,
            "Mining stopped: insufficient ICP allowance/balance for the pool -- approve more ICP to keep mining."@,
            "critical"@,
            true,
        )
    } else if work.previousHash@.len() != 32 {
        &&& after.phase is Idle
        &&& actions.len() == 2
        &&& tells(actions[0], s, "Unexpected header length from mother"@, "critical"@, false)
        &&& actions[1] == Action::Sleep(3000)
    } else {
        &&& actions.len() == 1
        &&& actions[0] matches Action::StartSearch { job, gpu } && {
            &&& after.phase == Phase::Starting(job)
            &&& gpu == gpu_requested
            &&& job.previous_hash@.len() == 32
            &&& forall|i: int|
                0 <= i < 32 ==> #[trigger] job.previous_hash@[i] == work.previousHash@[i]
            &&& job.height == (if work.height@ < 0x1_0000_0000_0000_0000 {
                work.height@
            } else {
                0
            })
            &&& job.difficulty_bits == (if work.difficultyBits@ < 0x1_0000_0000 {
                work.difficultyBits@
            } else {
                0
            })
            &&& job.share_difficulty_bits == share_bits
        }
    }
}

/// A round without the pool, from the work to the search: the mother canister's
/// allowance is asked for, then the balance, and if both cover the cost of a block, the
/// search is started for the work that was handed out.
pub proof fn a_round_without_the_pool(
    s: Supervisor,
    work: Work,
    allowance: Option<Natural>,
    balance: Option<Natural>,
    gpu_requested: bool,
    states: (Supervisor, Supervisor, Supervisor),
    actions: (Seq<Action>, Seq<Action>, Seq<Action>),
)
    requires
        s.phase is FetchingWork,
        leads_to(
            s,
            Event::GotWork { work: Ok(work), pool_requested: false },
            states.0,
            actions.0,
        ),
        leads_to(states.0, Event::GotAllowance(allowance), states.1, actions.1),
        leads_to(states.1, Event::GotBalance { balance, gpu_requested }, states.2, actions.2),
    ensures
        may_take(s, Event::GotWork { work: Ok(work), pool_requested: false }),
        may_take(states.0, Event::GotAllowance(allowance)),
        may_take(states.1, Event::GotBalance { balance, gpu_requested }),
        actions.0.len() == 1 && actions.0[0] == (Action::FetchAllowance { pool: false }),
        actions.1.len() == 1 && actions.1[0] is FetchBalance,
        round_goes_on(
            s,
            work,
            None,
            known(allowance),
            known(balance),
            gpu_requested,
            states.2,
            actions.2,
        ),
{
    seen_one_by_one(actions.0);
    seen_one_by_one(actions.1);
    seen_one_by_one(actions.2);
    if work.previousHash@.len() == 32 {
        super::model::hash_of_its_bytes(work.previousHash@);
    }
}

/// A round with the pool, from the work to the search: the pool is asked how it wants
/// its shares. If its share target fits, the pool's allowance is asked for and the search
/// is for the pool; if it has none that fits, or gives no answer, the round goes
/// on as one without the pool.
pub proof fn a_round_with_the_pool(
    s: Supervisor,
    work: Work,
    config: Result<PoolConfig, String>,
    allowance: Option<Natural>,
    balance: Option<Natural>,
    gpu_requested: bool,
    states: (Supervisor, Supervisor, Supervisor, Supervisor),
    actions: (Seq<Action>, Seq<Action>, Seq<Action>, Seq<Action>),
)
    requires
        s.phase is FetchingWork,
        leads_to(s, Event::GotWork { work: Ok(work), pool_requested: true }, states.0, actions.0),
        leads_to(states.0, Event::GotPoolConfig(config), states.1, actions.1),
        leads_to(states.1, Event::GotAllowance(allowance), states.2, actions.2),
        leads_to(states.2, Event::GotBalance { balance, gpu_requested }, states.3, actions.3),
    ensures
        may_take(s, Event::GotWork { work: Ok(work), pool_requested: true }),
        may_take(states.0, Event::GotPoolConfig(config)),
        may_take(states.1, Event::GotAllowance(allowance)),
        may_take(states.2, Event::GotBalance { balance, gpu_requested }),
        actions.0.len() == 1 && actions.0[0] is FetchPoolConfig,
        actions.2.len() == 1 && actions.2[0] is FetchBalance,
        match config {
            Ok(c) => {
                let fits = c.shareDifficultyBits@ < 0x1_0000_0000;
                let bits = c.shareDifficultyBits@ as u32;
                &&& actions.1.len() == 1
                &&& actions.1[0] == (Action::FetchAllowance { pool: fits })
                &&& round_goes_on(
                    s,
                    work,
                    if fits {
                        Some(bits)
                    } else {
                        None
                    },
                    known(allowance),
                    known(balance),
                    gpu_requested,
                    states.3,
                    actions.3,
                )
            },
            Err(why) => {
                &&& actions.1.len() == 2
                &&& tells(
                    actions.1[0],
                    s,
                    "Pool config unavailable ("@ + why@ + ") -- mining solo this round"@,
                    ""@,
                    false,
                )
                &&& actions.1[1] == (Action::FetchAllowance { pool: false })
                &&& round_goes_on(
                    s,
                    work,
                    None,
                    known(allowance),
                    known(balance),
                    gpu_requested,
                    states.3,
                    actions.3,
                )
            },
        },
{
    seen_one_by_one(actions.0);
    seen_one_by_one(actions.1);
    seen_one_by_one(actions.2);
    seen_one_by_one(actions.3);
    if work.previousHash@.len() == 32 {
        super::model::hash_of_its_bytes(work.previousHash@);
    }
}

/// A search that was started has hashed nothing and has no share pending. It counts its
/// reports and its looks at the chain from then on; its last share counts as sent one
/// second before, its last sign of life thirty seconds before.
pub proof fn a_search_begins(
    s: Supervisor,
    job: MiningJob,
    now: u64,
    after: Supervisor,
    actions: Seq<Action>,
)
    requires
        s.phase == Phase::Starting(job),
        leads_to(s, Event::Started { now }, after, actions),
    ensures
        may_take(s, Event::Started { now }),
        same_counts(s, after),
        actions.len() == 0,
        after.phase matches Phase::Searching(search) && {
            &&& search.job == job
            &&& search.last_report == now
            &&& search.last_hash_count == 0
            &&& search.last_stale_check == now
            &&& search.last_heartbeat == now - 30_000_000_000
            &&& search.last_share_sent == now - 1_000_000_000
            &&& search.pending_share is None
        },
{
    seen_one_by_one(actions);
}


/// One look at a search that has found nothing, pooled or not. What was hashed since the
/// last report is reported, once 400 milliseconds have gone by since then: the hashes
/// that the search has counted since, the time that they took, and the same hashes added
/// to those of the session.
pub proof fn hashes_since_the_last_report_are_reported(
    s: Supervisor,
    search: Search,
    now: u64,
    share: Option<u64>,
    hash_count: u64,
    after: Supervisor,
    actions: Seq<Action>,
)
    requires
        s.phase == Phase::Searching(search),
        now - search.last_report >= 400_000_000 ==> s.session_attempts + hash_count
            - search.last_hash_count <= u64::MAX,
        leads_to(
            s,
            Event::Tick { stop: false, winner: Winner::NoneYet, now, share, hash_count },
            after,
            actions,
        ),
    ensures
        may_take(
            s,
            Event::Tick { stop: false, winner: Winner::NoneYet, now, share, hash_count },
        ),
        after.session_blocks == s.session_blocks,
        after@.search() matches Some(next) && next.job == search.job && if now - search.last_report
            >= 400_000_000 {
            let hashes = if hash_count > search.last_hash_count {
                hash_count - search.last_hash_count
            } else {
                0
            };
            &&& after.session_attempts == s.session_attempts + hashes
            &&& next.last_report == now
            &&& next.last_hash_count == hash_count
            &&& exists|i: int|
                0 <= i < actions.len() && (#[trigger] actions[i]) is Report && actions[i]->Report_0
                    == (HashReport {
                    hashes: hashes as u64,
                    nanos: (now - search.last_report) as u64,
                    session_attempts: after.session_attempts,
                    session_blocks: s.session_blocks,
                })
            &&& forall|i: int, j: int|
                0 <= i < j < actions.len() ==> !((#[trigger] actions[i]) is Report && (
                #[trigger] actions[j]) is Report)
        } else {
            &&& after.session_attempts == s.session_attempts
            &&& next.last_report == search.last_report
            &&& next.last_hash_count == search.last_hash_count
            &&& forall|i: int| 0 <= i < actions.len() ==> !((#[trigger] actions[i]) is Report)
        },
{
    seen_one_by_one(actions);
    let k: int = if search.job.share_difficulty_bits is Some && (share is Some
        || search.pending_share is Some) && now - search.last_share_sent >= 350_000_000 {
        1
    } else {
        0
    };
    if now - search.last_report >= 400_000_000 {
        assert(seen(actions)[k] is Report);
        assert(actions[k] is Report);
    }
}

/// One look at a search that has found nothing. Beside the report, these are done and
/// nothing else, in this order: first a share, for a search for the pool that has one to
/// send and has sent none for 350 milliseconds, the newest one at the height of
/// the job; then, after the report, a sign of life, for a search for the pool that has
/// sent none for 20 seconds; last a look at the chain, if there was none for 3
/// seconds, or else a pause of 50 milliseconds.
pub proof fn a_quiet_look(
    s: Supervisor,
    search: Search,
    now: u64,
    share: Option<u64>,
    hash_count: u64,
    after: Supervisor,
    actions: Seq<Action>,
)
    requires
        s.phase == Phase::Searching(search),
        leads_to(
            s,
            Event::Tick { stop: false, winner: Winner::NoneYet, now, share, hash_count },
            after,
            actions,
        ),
    ensures
        ({
            let pool = search.job.share_difficulty_bits is Some;
            let newest = if share is Some {
                share
            } else {
                search.pending_share
            };
            let send = pool && newest is Some && now - search.last_share_sent >= 350_000_000;
            let report = now - search.last_report >= 400_000_000;
            let alive = pool && now - search.last_heartbeat >= 20_000_000_000;
            let chain = now - search.last_stale_check >= 3_000_000_000;
            let n = actions.len();
            &&& n == (if send {
                1int
            } else {
                0
            }) + (if report {
                1int
            } else {
                0
            }) + (if alive {
                1int
            } else {
                0
            }) + 1
            &&& send ==> actions[0] == (Action::SendShare {
                height: search.job.height,
                nonce: newest->0,
            })
            &&& report ==> actions[if send {
                1
            } else {
                0
            }] is Report
            &&& alive ==> actions[n - 2] is Heartbeat
            &&& chain ==> actions[n - 1] is RecheckWork
            &&& !chain ==> actions[n - 1] == Action::Sleep(50)
            &&& after@.search() matches Some(next) && {
                &&& after.phase == (if chain {
                    Phase::CheckingWork(next)
                } else {
                    Phase::Searching(next)
                })
                &&& next.job == search.job
                &&& next.last_share_sent == (if send {
                    now as int
                } else {
                    search.last_share_sent as int
                })
                &&& next.pending_share == (if send {
                    None
                } else {
                    newest
                })
                &&& next.last_heartbeat == (if alive {
                    now as int
                } else {
                    search.last_heartbeat as int
                })
                &&& next.last_stale_check == (if chain {
                    now as int
                } else {
                    search.last_stale_check as int
                })
            }
        }),
{
    seen_one_by_one(actions);
    let n = actions.len();
    let pool = search.job.share_difficulty_bits is Some;
    let alive = pool && now - search.last_heartbeat >= 20_000_000_000;
    assert(seen(actions)[n - 1] == actions[n - 1]@);
    if alive {
        assert(seen(actions)[n - 2] == actions[n - 2]@);
    }
    assert(seen(actions)[0] == actions[0]@);
    if n > 1 {
        assert(seen(actions)[1] == actions[1]@);
    }
}

/// A look at a search that is to stop, that has found a block, or that has lost its
/// threads. A block of a search for the pool is submitted through the pool, at the
/// height of the job; any other straight to the mother canister.
pub proof fn a_search_ends(
    s: Supervisor,
    search: Search,
    stop: bool,
    winner: Winner,
    now: u64,
    share: Option<u64>,
    hash_count: u64,
    after: Supervisor,
    actions: Seq<Action>,
)
    requires
        s.phase == Phase::Searching(search),
        stop || !(winner is NoneYet),
        leads_to(s, Event::Tick { stop, winner, now, share, hash_count }, after, actions),
    ensures
        may_take(s, Event::Tick { stop, winner, now, share, hash_count }),
        same_counts(s, after),
        stop ==> actions.len() == 1 && actions[0] is StopSearch && after.phase is Finished,
        !stop && winner is Gone ==> {
            &&& actions.len() == 1
            &&& tells(actions[0], s, "Mining threads stopped unexpectedly"@, "critical"@, true)
            &&& after.phase is Finished
        },
        !stop ==> (winner matches Winner::Nonce(nonce) ==> {
            &&& actions.len() == 2
            &&& actions[0] is StopSearch
            &&& search.job.share_difficulty_bits is Some ==> after.phase is SubmittingShare
                && actions[1] == (Action::SubmitShare { height: search.job.height, nonce })
            &&& search.job.share_difficulty_bits is None ==> after.phase is SubmittingProof
                && actions[1] == (Action::SubmitProof { nonce })
        }),
{
    seen_one_by_one(actions);
}

/// A look at the chain ends the search, and a new round begins, exactly if work has come
/// for another height. A height that does not fit counts as zero.
pub proof fn the_chain_was_looked_at(
    s: Supervisor,
    search: Search,
    work: Option<Work>,
    after: Supervisor,
    actions: Seq<Action>,
)
    requires
        s.phase == Phase::CheckingWork(search),
        leads_to(s, Event::Rechecked(work), after, actions),
    ensures
        may_take(s, Event::Rechecked(work)),
        same_counts(s, after),
        actions.len() == 1,
        ({
            let moved_on = match work {
                Some(w) => if w.height@ < 0x1_0000_0000_0000_0000 {
                    w.height@ != search.job.height
                } else {
                    search.job.height != 0
                },
                None => false,
            };
            if moved_on {
                actions[0] is StopSearch && after.phase is Idle
            } else {
                actions[0] == Action::Sleep(50) && after.phase == Phase::Searching(search)
            }
        }),
{
    seen_one_by_one(actions);
}

/// The answer to a block. A block that was accepted counts, and its height and reward
/// are told. A fee that was not paid for want of allowance or money ends the session.
/// Any other refusal or failure is told, and the next round begins.
pub proof fn a_proof_was_answered(
    s: Supervisor,
    answer: Result<SubmitResult, String>,
    after: Supervisor,
    actions: Seq<Action>,
)
    requires
        s.phase is SubmittingProof,
        answer matches Ok(Ok(_)) ==> s.session_blocks < u64::MAX,
        leads_to(s, Event::ProofAnswered(answer), after, actions),
    ensures
        may_take(s, Event::ProofAnswered(answer)),
        after.session_attempts == s.session_attempts,
        match answer {
            Ok(Ok(won)) => {
                &&& after.session_blocks == s.session_blocks + 1
                &&& after.phase is Idle
                &&& actions.len() == 1
                &&& tells(
                    actions[0],
                    after,
                    "Block #"@ + decimal(won.height@) + " won -- +"@ + token_text(won.reward@)
                        + " PIKO"@,
                    "good"@,
                    false,
                )
            },
            Ok(Err(SubmitError::IcpFeeFailed(why))) if why is InsufficientAllowance
                || why is InsufficientFunds => {
                &&& same_counts(s, after)
                &&& after.phase is Finished
                &&& actions.len() == 2
                &&& actions[0] is SetStop
                &&& tells(
                    actions[1],
                    s,
                    "Mining stopped: insufficient ICP allowance/balance -- approve more ICP to keep mining."@,
                    "critical"@,
                    true,
                )
            },
            Ok(Err(why)) => {
                &&& same_counts(s, after)
                &&& after.phase is Idle
                &&& actions.len() == 1
                &&& tells(
                    actions[0],
                    s,
                    "Not accepted: "@ + why.shown() + " -- still mining"@,
                    ""@,
                    false,
                )
            },
            Err(e) => {
                &&& same_counts(s, after)
                &&& after.phase is Idle
                &&& actions.len() == 1
                &&& tells(
                    actions[0],
                    s,
                    "Submission failed: "@ + e@ + " -- still mining"@,
                    ""@,
                    false,
                )
            },
        },
{
    seen_one_by_one(actions);
}

/// The pool's answer to a block. Whether it counts as a block is the pool's word; the
/// height is told where the pool has been told it. Whatever the answer, the next round
/// begins.
pub proof fn a_share_was_answered(
    s: Supervisor,
    answer: Result<ShareResult, String>,
    after: Supervisor,
    actions: Seq<Action>,
)
    requires
        s.phase is SubmittingShare,
        answer matches Ok(Ok(outcome)) ==> (outcome.isBlockWinner ==> s.session_blocks < u64::MAX),
        leads_to(s, Event::ShareAnswered(answer), after, actions),
    ensures
        may_take(s, Event::ShareAnswered(answer)),
        after.session_attempts == s.session_attempts,
        after.phase is Idle,
        actions.len() == 1,
        match answer {
            Ok(Ok(outcome)) => if outcome.isBlockWinner {
                &&& after.session_blocks == s.session_blocks + 1
                &&& match outcome.poolSubmitResult {
                    Some(Ok(won)) => tells(
                        actions[0],
                        after,
                        "Pool won block #"@ + decimal(won.height@)
                            + "! Reward split is credited by the pool -- claim it from there."@,
                        "good"@,
                        false,
                    ),
                    _ => tells(
                        actions[0],
                        after,
                        "Pool found a winning share -- reward pending"@,
                        "good"@,
                        false,
                    ),
                }
            } else {
                &&& same_counts(s, after)
                &&& tells(actions[0], s, "Share accepted by the pool"@, ""@, false)
            },
            Ok(Err(why)) => {
                &&& same_counts(s, after)
                &&& tells(
                    actions[0],
                    s,
                    "Share not accepted: "@ + why.shown() + " -- still mining"@,
                    ""@,
                    false,
                )
            },
            Err(e) => {
                &&& same_counts(s, after)
                &&& tells(
                    actions[0],
                    s,
                    "Share submission failed: "@ + e@ + " -- still mining"@,
                    ""@,
                    false,
                )
            },
        },
{
    seen_one_by_one(actions);
}

/// A session takes the one event that its phase waits for, whatever the event carries,
/// exactly if its counts of 64 bits can hold what comes of it: one more block, or the
/// hashes that are to be reported.
pub proof fn each_phase_waits_for_one_event(s: Supervisor, e: Event)
    ensures
        may_take(s, e) <==> match (s.phase, e) {
            (Phase::Idle, Event::Begin { .. }) => true,
            (Phase::FetchingWork, Event::GotWork { .. }) => true,
            (Phase::FetchingPoolConfig(_), Event::GotPoolConfig(_)) => true,
            (Phase::FetchingAllowance(_, _), Event::GotAllowance(_)) => true,
            (Phase::FetchingBalance(_, _, _), Event::GotBalance { .. }) => true,
            (Phase::Starting(_), Event::Started { .. }) => true,
            (
                Phase::Searching(search),
                Event::Tick { stop, winner, now, hash_count, .. },
            ) => stop || !(winner is NoneYet) || now - search.last_report < 400_000_000
                || hash_count <= search.last_hash_count || s.session_attempts + hash_count
                - search.last_hash_count <= u64::MAX,
            (Phase::CheckingWork(_), Event::Rechecked(_)) => true,
            (Phase::SubmittingProof, Event::ProofAnswered(answer)) => answer matches Ok(Ok(_))
                ==> s.session_blocks < u64::MAX,
            (Phase::SubmittingShare, Event::ShareAnswered(answer)) => answer matches Ok(Ok(outcome))
                ==> (outcome.isBlockWinner ==> s.session_blocks < u64::MAX),
            _ => false,
        },
{
}

/// A session is well formed unless its search has noted a time that no search can have
/// noted: one after the last nanosecond that 64 bits count, or one before the thirty
/// seconds that a search that starts at once is given.
pub proof fn well_formed_sessions(s: Supervisor)
    ensures
        s.wf() <==> match s.phase {
            Phase::Searching(search) | Phase::CheckingWork(search) => {
                &&& 0 <= search.last_report <= u64::MAX
                &&& -30_000_000_000 <= search.last_stale_check <= u64::MAX
                &&& -30_000_000_000 <= search.last_heartbeat <= u64::MAX
                &&& -30_000_000_000 <= search.last_share_sent <= u64::MAX
            },
            _ => true,
        },
{
}

} // verus!
