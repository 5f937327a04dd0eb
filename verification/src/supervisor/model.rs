//! What a mining session does, as a function from a state and an event to the next
//! state and the actions to be carried out.

use crate::dashboard::u32_or_zero;
use crate::miner::MiningJob;
use crate::text::decimal;
use crate::wallet::{affordable, token_text};
use vstd::prelude::*;

verus! {

/// The pause after work could not be had, in milliseconds.
pub const RETRY_MILLIS: u64 = 3_000;

/// The pause between two looks at a running search, in milliseconds.
pub const TICK_MILLIS: u64 = 50;

/// The least time between two shares sent to the pool, in nanoseconds.
pub const SHARE_INTERVAL_NANOS: u64 = 350_000_000;

/// The least time between two reports of the hash rate, in nanoseconds.
pub const REPORT_INTERVAL_NANOS: u64 = 400_000_000;

/// The least time between two signs of life to the pool, in nanoseconds.
pub const HEARTBEAT_INTERVAL_NANOS: u64 = 20_000_000_000;

/// The least time between two looks at whether the chain has moved on, in nanoseconds.
pub const STALE_INTERVAL_NANOS: u64 = 3_000_000_000;

/// How long before a search the last sign of life is taken to have been, in nanoseconds.
pub const HEARTBEAT_HEAD_START_NANOS: u64 = 30_000_000_000;

/// How long before a search the last share is taken to have been sent, in nanoseconds.
pub const SHARE_HEAD_START_NANOS: u64 = 1_000_000_000;

/// What the search threads have to say.
#[derive(Clone, Copy, Debug, PartialEq, Eq, Structural)]
pub enum Winner {
    /// Nothing yet.
    NoneYet,
    /// A nonce that makes a block.
    Nonce(u64),
    /// All of them are gone.
    Gone,
}

/// A running search: its job, when what was done last, and the newest share that has
/// yet to be sent. Times are nanoseconds since the program was started.
#[derive(Clone, Copy, Debug)]
pub struct Search {
    pub job: MiningJob,
    pub last_report: i128,
    pub last_hash_count: u64,
    pub last_stale_check: i128,
    pub last_heartbeat: i128,
    pub last_share_sent: i128,
    pub pending_share: Option<u64>,
}

/// What was hashed since the last report.
#[derive(Clone, Copy, Debug, PartialEq, Eq, Structural)]
pub struct HashReport {
    pub hashes: u64,
    pub nanos: u64,
    pub session_attempts: u64,
    pub session_blocks: u64,
}

impl MiningJob {
    /// Whether what is found goes to the pool.
    pub open spec fn pooled(self) -> bool {
        self.share_difficulty_bits is Some
    }
}

/// The time from `last` to `now`, zero if `last` is the later one.
pub open spec fn since(now: u64, last: i128) -> int {
    if now > last {
        now - last
    } else {
        0
    }
}

/// Whether a time is one that a search can have noted.
pub open spec fn is_time(t: i128) -> bool {
    -(HEARTBEAT_HEAD_START_NANOS as int) <= t <= u64::MAX
}

impl Search {
    /// All times noted are times of this search.
    pub open spec fn wf(self) -> bool {
        &&& 0 <= self.last_report <= u64::MAX
        &&& is_time(self.last_stale_check)
        &&& is_time(self.last_heartbeat)
        &&& is_time(self.last_share_sent)
    }
}

/// A search that is started at `now`.
pub open spec fn new_search(job: MiningJob, now: u64) -> Search {
    Search {
        job,
        last_report: now as i128,
        last_hash_count: 0,
        last_stale_check: now as i128,
        last_heartbeat: (now - HEARTBEAT_HEAD_START_NANOS) as i128,
        last_share_sent: (now - SHARE_HEAD_START_NANOS) as i128,
        pending_share: None,
    }
}

/// The work that was handed out, as far as a session needs it.
#[verifier::ext_equal]
pub struct OfferView {
    pub height: u64,
    pub difficulty_bits: u32,
    pub fee: nat,
    pub previous_hash: Seq<u8>,
}

/// Where a session stands.
#[verifier::ext_equal]
pub enum PhaseView {
    /// A round is about to begin.
    Idle,
    /// The work was asked for.
    FetchingWork,
    /// The pool was asked how it wants its shares.
    FetchingPoolConfig(OfferView),
    /// The ledger was asked what may be spent.
    FetchingAllowance(OfferView, Option<u32>),
    /// The ledger was asked what is owned.
    FetchingBalance(OfferView, Option<u32>, nat),
    /// The search threads are being started.
    Starting(MiningJob),
    /// The search threads are running.
    Searching(Search),
    /// They are running, and it was asked whether the chain has moved on.
    CheckingWork(Search),
    /// A block was submitted.
    SubmittingProof,
    /// A block was submitted through the pool.
    SubmittingShare,
    /// The session is over.
    Finished,
}

/// A session: what it has done so far, and where it stands.
#[verifier::ext_equal]
pub struct SupervisorView {
    pub session_attempts: u64,
    pub session_blocks: u64,
    pub phase: PhaseView,
}

/// What the user interface is told.
#[verifier::ext_equal]
pub struct ProgressView {
    pub hashrate: u64,
    pub session_attempts: u64,
    pub session_blocks: u64,
    pub message: Seq<char>,
    pub message_kind: Seq<char>,
    pub stopped: bool,
}

/// The work that was handed out.
#[verifier::ext_equal]
pub struct WorkView {
    pub difficulty: nat,
    pub height: nat,
    pub fee: nat,
    pub previous_hash: Seq<u8>,
}

/// The answer to a block that was submitted.
pub enum ProofAnswerView {
    /// The block was accepted.
    Won { height: nat, reward: nat },
    /// The fee could not be paid, and trying again would not help.
    Unpaid,
    /// It was not accepted for another reason.
    Refused(Seq<char>),
    /// There was no answer.
    Failed(Seq<char>),
}

/// The answer to a block that was submitted through the pool.
pub enum ShareAnswerView {
    /// The pool has won the block at this height.
    BlockWon(nat),
    /// It makes a block, which has not been won yet.
    WinPending,
    /// It was taken as a share.
    Accepted,
    /// It was not accepted.
    Refused(Seq<char>),
    /// There was no answer.
    Failed(Seq<char>),
}

/// What can happen to a session.
pub enum EventView {
    /// A round begins.
    Begin { stop: bool },
    /// The work has come, or why it has not.
    GotWork { work: Result<WorkView, Seq<char>>, pool_requested: bool },
    /// The pool's share target has come, or why it has not.
    GotPoolConfig(Result<nat, Seq<char>>),
    /// What may be spent has come, or not.
    GotAllowance(Option<nat>),
    /// What is owned has come, or not.
    GotBalance { balance: Option<nat>, gpu_requested: bool },
    /// The search threads were started.
    Started { now: u64 },
    /// It is time to look at the search.
    Tick { stop: bool, winner: Winner, now: u64, share: Option<u64>, hash_count: u64 },
    /// The answer to a block has come.
    ProofAnswered(ProofAnswerView),
    /// The pool's answer to a block has come.
    ShareAnswered(ShareAnswerView),
    /// The height that is worked on by now has come, or not.
    Rechecked(Option<nat>),
}

/// What a session wants done.
#[verifier::ext_equal]
pub enum ActionView {
    FetchWork,
    FetchPoolConfig,
    /// Ask what the pool, or else the mother canister, may spend.
    FetchAllowance { pool: bool },
    FetchBalance,
    /// Start the search threads and, if `gpu` says so, the search on a graphics device.
    StartSearch { job: MiningJob, gpu: bool },
    StopSearch,
    SubmitProof { nonce: u64 },
    /// Submit a block through the pool, and wait for the answer.
    SubmitShare { height: u64, nonce: u64 },
    /// Send a share to the pool, and do not wait.
    SendShare { height: u64, nonce: u64 },
    Report(HashReport),
    Heartbeat,
    RecheckWork,
    /// Raise the flag that stops mining.
    SetStop,
    Emit(ProgressView),
    /// Wait for so many milliseconds.
    Sleep(u64),
}

impl SupervisorView {
    /// The same session in another phase.
    pub open spec fn at(self, phase: PhaseView) -> SupervisorView {
        SupervisorView { phase, ..self }
    }

    /// The same session with one more block, at the start of a round.
    pub open spec fn with_block(self) -> SupervisorView {
        SupervisorView {
            session_blocks: (self.session_blocks + 1) as u64,
            phase: PhaseView::Idle,
            ..self
        }
    }

    /// A message about this session.
    pub open spec fn says(self, message: Seq<char>, kind: Seq<char>) -> ActionView {
        ActionView::Emit(
            ProgressView {
                hashrate: 0,
                session_attempts: self.session_attempts,
                session_blocks: self.session_blocks,
                message,
                message_kind: kind,
                stopped: false,
            },
        )
    }

    /// The message that this session has stopped.
    pub open spec fn says_stopped(self, message: Seq<char>) -> ActionView {
        ActionView::Emit(
            ProgressView {
                hashrate: 0,
                session_attempts: self.session_attempts,
                session_blocks: self.session_blocks,
                message,
                message_kind: "critical"@,
                stopped: true,
            },
        )
    }

    /// The search that is running, if one is.
    pub open spec fn search(self) -> Option<Search> {
        match self.phase {
            PhaseView::Searching(search) => Some(search),
            PhaseView::CheckingWork(search) => Some(search),
            _ => None,
        }
    }
}

/// What is said when mining cannot be paid for.
pub open spec fn unpaid_text(pool: bool) -> Seq<char> {
    if pool {
        "Mining stopped: insufficient ICP allowance/balance for the pool -- approve more ICP to keep mining."@
    } else {
        "Mining stopped: insufficient ICP allowance/balance -- approve more ICP to keep mining."@
    }
}

/// A height as 64 bits, zero if it does not fit.
pub open spec fn u64_or_zero(n: nat) -> u64 {
    if n <= u64::MAX {
        n as u64
    } else {
        0
    }
}

/// What a session needs of the work that was handed out.
pub open spec fn offer(work: WorkView) -> OfferView {
    OfferView {
        height: u64_or_zero(work.height),
        difficulty_bits: u32_or_zero(work.difficulty),
        fee: work.fee,
        previous_hash: work.previous_hash,
    }
}

/// The hash that is made of 32 bytes.
pub open spec fn hash_of(bytes: Seq<u8>) -> [u8; 32] {
    [
        bytes[0], bytes[1], bytes[2], bytes[3], bytes[4], bytes[5], bytes[6], bytes[7],
        bytes[8], bytes[9], bytes[10], bytes[11], bytes[12], bytes[13], bytes[14], bytes[15],
        bytes[16], bytes[17], bytes[18], bytes[19], bytes[20], bytes[21], bytes[22], bytes[23],
        bytes[24], bytes[25], bytes[26], bytes[27], bytes[28], bytes[29], bytes[30], bytes[31],
    ]
}

/// The hash that is made of 32 bytes is made of just these, and there is no other one.
pub proof fn hash_of_its_bytes(bytes: Seq<u8>)
    requires
        bytes.len() == 32,
    ensures
        hash_of(bytes)@ == bytes,
        forall|hash: [u8; 32]| #[trigger] hash@ == bytes ==> hash == hash_of(bytes),
{
    assert(hash_of(bytes)@ =~= bytes);
    assert forall|hash: [u8; 32]| #[trigger] hash@ == bytes implies hash == hash_of(bytes) by {
        assert(hash =~= hash_of(bytes));
    }
}

/// The job that an offer makes.
pub open spec fn job_of(offer: OfferView, share_bits: Option<u32>) -> MiningJob {
    MiningJob {
        previous_hash: hash_of(offer.previous_hash),
        height: offer.height,
        difficulty_bits: offer.difficulty_bits,
        share_difficulty_bits: share_bits,
    }
}

/// A share target as 32 bits, if it fits.
pub open spec fn share_bits_of(bits: nat) -> Option<u32> {
    if bits <= u32::MAX {
        Some(bits as u32)
    } else {
        None
    }
}

/// Goes on to what may be spent: by the pool, if there is a share target.
pub open spec fn ask_allowance(
    s: SupervisorView,
    offer: OfferView,
    share_bits: Option<u32>,
) -> SupervisorView {
    s.at(PhaseView::FetchingAllowance(offer, share_bits))
}

/// A round begins.
pub open spec fn on_begin(s: SupervisorView, stop: bool) -> (SupervisorView, Seq<ActionView>) {
    if stop {
        (s.at(PhaseView::Finished), seq![])
    } else {
        (s.at(PhaseView::FetchingWork), seq![ActionView::FetchWork])
    }
}

/// The work has come, or why it has not.
pub open spec fn on_work(
    s: SupervisorView,
    work: Result<WorkView, Seq<char>>,
    pool_requested: bool,
) -> (SupervisorView, Seq<ActionView>) {
    match work {
        Err(e) => (
            s.at(PhaseView::Idle),
            seq![
                s.says("Failed to fetch work: "@ + e, "critical"@),
                ActionView::Sleep(RETRY_MILLIS),
            ],
        ),
        Ok(w) => if pool_requested {
            (s.at(PhaseView::FetchingPoolConfig(offer(w))), seq![ActionView::FetchPoolConfig])
        } else {
            (
                ask_allowance(s, offer(w), None),
                seq![ActionView::FetchAllowance { pool: false }],
            )
        },
    }
}

/// The pool's share target has come, or why it has not. Without one, this round is
/// mined without the pool.
pub open spec fn on_pool_config(
    s: SupervisorView,
    offer: OfferView,
    bits: Result<nat, Seq<char>>,
) -> (SupervisorView, Seq<ActionView>) {
    match bits {
        Ok(bits) => (
            ask_allowance(s, offer, share_bits_of(bits)),
            seq![ActionView::FetchAllowance { pool: share_bits_of(bits) is Some }],
        ),
        Err(e) => (
            ask_allowance(s, offer, None),
            seq![
                s.says("Pool config unavailable ("@ + e + ") -- mining solo this round"@, ""@),
                ActionView::FetchAllowance { pool: false },
            ],
        ),
    }
}

/// What may be spent has come; it counts as nothing if it has not.
pub open spec fn on_allowance(
    s: SupervisorView,
    offer: OfferView,
    share_bits: Option<u32>,
    allowance: Option<nat>,
) -> (SupervisorView, Seq<ActionView>) {
    let known: nat = match allowance {
        Some(n) => n,
        None => 0,
    };
    (
        s.at(PhaseView::FetchingBalance(offer, share_bits, known)),
        seq![ActionView::FetchBalance],
    )
}

/// What is owned has come; it counts as nothing if it has not. The search is started
/// only if a block could be paid for, and on a graphics device only if that is wanted.
pub open spec fn on_balance(
    s: SupervisorView,
    offer: OfferView,
    share_bits: Option<u32>,
    allowance: nat,
    balance: Option<nat>,
    gpu_requested: bool,
) -> (SupervisorView, Seq<ActionView>) {
    let known: nat = match balance {
        Some(n) => n,
        None => 0,
    };
    if !affordable(allowance, known, offer.fee) {
        (
            s.at(PhaseView::Finished),
            seq![ActionView::SetStop, s.says_stopped(unpaid_text(share_bits is Some))],
        )
    } else if offer.previous_hash.len() != 32 {
        (
            s.at(PhaseView::Idle),
            seq![
                s.says("Unexpected header length from mother"@, "critical"@),
                ActionView::Sleep(RETRY_MILLIS),
            ],
        )
    } else {
        let job = job_of(offer, share_bits);
        (
            s.at(PhaseView::Starting(job)),
            seq![ActionView::StartSearch { job, gpu: gpu_requested }],
        )
    }
}

/// The newest share that has yet to be sent: the one that has just come, or else the
/// one that is pending.
pub open spec fn latest_share(search: Search, share: Option<u64>) -> Option<u64> {
    if share is Some {
        share
    } else {
        search.pending_share
    }
}

/// What sends the newest share.
pub open spec fn send_latest(search: Search, share: Option<u64>) -> ActionView {
    ActionView::SendShare { height: search.job.height, nonce: latest_share(search, share)->0 }
}

/// Whether a share is to be sent.
pub open spec fn share_due(search: Search, now: u64, share: Option<u64>) -> bool {
    &&& search.job.pooled()
    &&& latest_share(search, share) is Some
    &&& since(now, search.last_share_sent) >= SHARE_INTERVAL_NANOS
}

/// Whether the hash rate is to be reported.
pub open spec fn report_due(search: Search, now: u64) -> bool {
    since(now, search.last_report) >= REPORT_INTERVAL_NANOS
}

/// Whether a sign of life is to be sent.
pub open spec fn heartbeat_due(search: Search, now: u64) -> bool {
    search.job.pooled() && since(now, search.last_heartbeat) >= HEARTBEAT_INTERVAL_NANOS
}

/// Whether to look if the chain has moved on.
pub open spec fn stale_due(search: Search, now: u64) -> bool {
    since(now, search.last_stale_check) >= STALE_INTERVAL_NANOS
}

/// What was hashed since the last report.
pub open spec fn new_hashes(search: Search, hash_count: u64) -> u64 {
    if hash_count > search.last_hash_count {
        (hash_count - search.last_hash_count) as u64
    } else {
        0
    }
}

/// The search after one look at it.
pub open spec fn ticked(search: Search, now: u64, share: Option<u64>, hash_count: u64) -> Search {
    Search {
        job: search.job,
        last_share_sent: if share_due(search, now, share) {
            now as i128
        } else {
            search.last_share_sent
        },
        pending_share: if share_due(search, now, share) {
            None
        } else {
            latest_share(search, share)
        },
        last_report: if report_due(search, now) {
            now as i128
        } else {
            search.last_report
        },
        last_hash_count: if report_due(search, now) {
            hash_count
        } else {
            search.last_hash_count
        },
        last_heartbeat: if heartbeat_due(search, now) {
            now as i128
        } else {
            search.last_heartbeat
        },
        last_stale_check: if stale_due(search, now) {
            now as i128
        } else {
            search.last_stale_check
        },
    }
}

/// The attempts of a session after one look at its search.
pub open spec fn ticked_attempts(
    s: SupervisorView,
    search: Search,
    now: u64,
    hash_count: u64,
) -> int {
    if report_due(search, now) {
        s.session_attempts + new_hashes(search, hash_count)
    } else {
        s.session_attempts as int
    }
}

/// An action, if it is to be taken.
pub open spec fn only_if(due: bool, action: ActionView) -> Seq<ActionView> {
    if due {
        seq![action]
    } else {
        seq![]
    }
}

/// What is due at one look at a search that has found nothing, in this order: a share,
/// a report, a sign of life, and either a look at the chain or a pause.
pub open spec fn due_actions(
    s: SupervisorView,
    search: Search,
    now: u64,
    share: Option<u64>,
    hash_count: u64,
) -> Seq<ActionView> {
    only_if(
        share_due(search, now, share),
        send_latest(search, share),
    ) + only_if(
        report_due(search, now),
        ActionView::Report(
            HashReport {
                hashes: new_hashes(search, hash_count),
                nanos: since(now, search.last_report) as u64,
                session_attempts: ticked_attempts(s, search, now, hash_count) as u64,
                session_blocks: s.session_blocks,
            },
        ),
    ) + only_if(heartbeat_due(search, now), ActionView::Heartbeat) + seq![
        if stale_due(search, now) {
            ActionView::RecheckWork
        } else {
            ActionView::Sleep(TICK_MILLIS)
        },
    ]
}

/// It is time to look at the search. A block goes to the pool if the job is the
/// pool's, and never past it.
pub open spec fn on_tick(
    s: SupervisorView,
    search: Search,
    stop: bool,
    winner: Winner,
    now: u64,
    share: Option<u64>,
    hash_count: u64,
) -> (SupervisorView, Seq<ActionView>) {
    if stop {
        (s.at(PhaseView::Finished), seq![ActionView::StopSearch])
    } else {
        match winner {
            Winner::Nonce(nonce) => if search.job.pooled() {
                (
                    s.at(PhaseView::SubmittingShare),
                    seq![
                        ActionView::StopSearch,
                        ActionView::SubmitShare { height: search.job.height, nonce },
                    ],
                )
            } else {
                (
                    s.at(PhaseView::SubmittingProof),
                    seq![ActionView::StopSearch, ActionView::SubmitProof { nonce }],
                )
            },
            Winner::Gone => (
                s.at(PhaseView::Finished),
                seq![s.says_stopped("Mining threads stopped unexpectedly"@)],
            ),
            Winner::NoneYet => {
                let next = ticked(search, now, share, hash_count);
                (
                    SupervisorView {
                        session_attempts: ticked_attempts(s, search, now, hash_count) as u64,
                        session_blocks: s.session_blocks,
                        phase: if stale_due(search, now) {
                            PhaseView::CheckingWork(next)
                        } else {
                            PhaseView::Searching(next)
                        },
                    },
                    due_actions(s, search, now, share, hash_count),
                )
            },
        }
    }
}

/// The height that is worked on by now has come, or not. Only a height that has come
/// and differs ends the search.
pub open spec fn on_recheck(
    s: SupervisorView,
    search: Search,
    height: Option<nat>,
) -> (SupervisorView, Seq<ActionView>) {
    if height matches Some(h) && u64_or_zero(h) != search.job.height {
        (s.at(PhaseView::Idle), seq![ActionView::StopSearch])
    } else {
        (s.at(PhaseView::Searching(search)), seq![ActionView::Sleep(TICK_MILLIS)])
    }
}

/// The answer to a block has come.
pub open spec fn on_proof(
    s: SupervisorView,
    answer: ProofAnswerView,
) -> (SupervisorView, Seq<ActionView>) {
    match answer {
        ProofAnswerView::Won { height, reward } => {
            let next = s.with_block();
            let message = "Block #"@ + decimal(height) + " won -- +"@ + token_text(reward)
                + " PIKO"@;
            (next, seq![next.says(message, "good"@)])
        },
        ProofAnswerView::Unpaid => (
            s.at(PhaseView::Finished),
            seq![ActionView::SetStop, s.says_stopped(unpaid_text(false))],
        ),
        ProofAnswerView::Refused(why) => (
            s.at(PhaseView::Idle),
            seq![s.says("Not accepted: "@ + why + " -- still mining"@, ""@)],
        ),
        ProofAnswerView::Failed(e) => (
            s.at(PhaseView::Idle),
            seq![s.says("Submission failed: "@ + e + " -- still mining"@, ""@)],
        ),
    }
}

/// The pool's answer to a block has come.
pub open spec fn on_share(
    s: SupervisorView,
    answer: ShareAnswerView,
) -> (SupervisorView, Seq<ActionView>) {
    match answer {
        ShareAnswerView::BlockWon(height) => {
            let next = s.with_block();
            let message = "Pool won block #"@ + decimal(height)
                + "! Reward split is credited by the pool -- claim it from there."@;
            (next, seq![next.says(message, "good"@)])
        },
        ShareAnswerView::WinPending => {
            let next = s.with_block();
            (next, seq![next.says("Pool found a winning share -- reward pending"@, "good"@)])
        },
        ShareAnswerView::Accepted => (
            s.at(PhaseView::Idle),
            seq![s.says("Share accepted by the pool"@, ""@)],
        ),
        ShareAnswerView::Refused(why) => (
            s.at(PhaseView::Idle),
            seq![s.says("Share not accepted: "@ + why + " -- still mining"@, ""@)],
        ),
        ShareAnswerView::Failed(e) => (
            s.at(PhaseView::Idle),
            seq![s.says("Share submission failed: "@ + e + " -- still mining"@, ""@)],
        ),
    }
}

/// Whether an event is one that a session waits for.
pub open spec fn expects(s: SupervisorView, e: EventView) -> bool {
    match e {
        EventView::Begin { .. } => s.phase is Idle,
        EventView::GotWork { .. } => s.phase is FetchingWork,
        EventView::GotPoolConfig(_) => s.phase is FetchingPoolConfig,
        EventView::GotAllowance(_) => s.phase is FetchingAllowance,
        EventView::GotBalance { .. } => s.phase is FetchingBalance,
        EventView::Started { .. } => s.phase is Starting,
        EventView::Tick { .. } => s.phase is Searching,
        EventView::ProofAnswered(_) => s.phase is SubmittingProof,
        EventView::ShareAnswered(_) => s.phase is SubmittingShare,
        EventView::Rechecked(_) => s.phase is CheckingWork,
    }
}

/// Whether a session's counts can take an event: they are 64 bits wide.
pub open spec fn has_room(s: SupervisorView, e: EventView) -> bool {
    match (e, s.phase) {
        (
            EventView::Tick { stop, winner, now, hash_count, .. },
            PhaseView::Searching(search),
        ) => !stop && winner is NoneYet ==> ticked_attempts(s, search, now, hash_count) <= u64::MAX,
        (EventView::ProofAnswered(answer), _) => answer is Won ==> s.session_blocks < u64::MAX,
        (EventView::ShareAnswered(answer), _) => answer is BlockWon || answer is WinPending
            ==> s.session_blocks < u64::MAX,
        _ => true,
    }
}

/// What comes of an event that a session waits for: the session after it, and what is
/// to be done.
pub open spec fn step(s: SupervisorView, e: EventView) -> (SupervisorView, Seq<ActionView>) {
    match (e, s.phase) {
        (EventView::Begin { stop }, PhaseView::Idle) => on_begin(s, stop),
        (EventView::GotWork { work, pool_requested }, PhaseView::FetchingWork) => on_work(
            s,
            work,
            pool_requested,
        ),
        (EventView::GotPoolConfig(bits), PhaseView::FetchingPoolConfig(offer)) => on_pool_config(
            s,
            offer,
            bits,
        ),
        (
            EventView::GotAllowance(allowance),
            PhaseView::FetchingAllowance(offer, share_bits),
        ) => on_allowance(s, offer, share_bits, allowance),
        (
            EventView::GotBalance { balance, gpu_requested },
            PhaseView::FetchingBalance(offer, share_bits, allowance),
        ) => on_balance(s, offer, share_bits, allowance, balance, gpu_requested),
        (EventView::Started { now }, PhaseView::Starting(job)) => (
            s.at(PhaseView::Searching(new_search(job, now))),
            seq![],
        ),
        (
            EventView::Tick { stop, winner, now, share, hash_count },
            PhaseView::Searching(search),
        ) => on_tick(s, search, stop, winner, now, share, hash_count),
        (EventView::ProofAnswered(answer), PhaseView::SubmittingProof) => on_proof(s, answer),
        (EventView::ShareAnswered(answer), PhaseView::SubmittingShare) => on_share(s, answer),
        (EventView::Rechecked(height), PhaseView::CheckingWork(search)) => on_recheck(
            s,
            search,
            height,
        ),
        _ => (s, seq![]),
    }
}

} // verus!
