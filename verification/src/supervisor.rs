//! The state machine that supervises a mining session: it fetches work, checks that a
//! block could be paid for, has the search run, submits what is found and starts
//! over. It decides; the program around it carries out the actions and hands back
//! the events.

use crate::bytes::array32;
use crate::miner::MiningJob;
use crate::natural::Natural;
use crate::text::{join2, join3, join5};
use crate::types::{PoolConfig, ShareResult, SubmitError, SubmitResult, TransferFromError, Work};
use crate::wallet::{can_afford, format_piko, nat_to_plain_string};
use model::{
    due_actions, expects, has_room, hash_of_its_bytes, is_time, job_of, new_search, offer,
    on_balance, on_pool_config, on_proof, on_recheck, on_share, on_tick, on_work, since, step,
    ticked, ticked_attempts, u64_or_zero, unpaid_text, ActionView, EventView, HashReport, OfferView,
    PhaseView, ProgressView, ProofAnswerView, Search, ShareAnswerView, SupervisorView, Winner,
    WorkView, HEARTBEAT_HEAD_START_NANOS, HEARTBEAT_INTERVAL_NANOS, REPORT_INTERVAL_NANOS,
    RETRY_MILLIS, SHARE_HEAD_START_NANOS, SHARE_INTERVAL_NANOS, STALE_INTERVAL_NANOS, TICK_MILLIS,
};
use vstd::prelude::*;
use vstd::string::*;

pub mod effects;
pub mod laws;
pub mod model;

verus! {

/// What the user interface is told.
#[derive(Clone, Debug)]
pub struct MiningProgress {
    pub hashrate: u64,
    pub session_attempts: u64,
    pub session_blocks: u64,
    pub message: String,
    pub message_kind: String,
    pub stopped: bool,
}

impl View for MiningProgress {
    type V = ProgressView;

    open spec fn view(&self) -> ProgressView {
        ProgressView {
            hashrate: self.hashrate,
            session_attempts: self.session_attempts,
            session_blocks: self.session_blocks,
            message: self.message@,
            message_kind: self.message_kind@,
            stopped: self.stopped,
        }
    }
}

/// A message of a session that goes on.
pub fn emit_progress(
    hashrate: u64,
    session_attempts: u64,
    session_blocks: u64,
    message: &str,
    kind: &str,
) -> (progress: MiningProgress)
    ensures
        progress@ == (ProgressView {
            hashrate,
            session_attempts,
            session_blocks,
            message: message@,
            message_kind: kind@,
            stopped: false,
        }),
{
    MiningProgress {
        hashrate,
        session_attempts,
        session_blocks,
        message: String::from_str(message),
        message_kind: String::from_str(kind),
        stopped: false,
    }
}

/// The message of a session that has ended for good.
pub fn emit_stopped(session_attempts: u64, session_blocks: u64, message: &str) -> (progress:
    MiningProgress)
    ensures
        progress@ == (ProgressView {
            hashrate: 0,
            session_attempts,
            session_blocks,
            message: message@,
            message_kind: "critical"@,
            stopped: true,
        }),
{
    MiningProgress {
        hashrate: 0,
        session_attempts,
        session_blocks,
        message: String::from_str(message),
        message_kind: String::from_str("critical"),
        stopped: true,
    }
}

/// The work that was handed out, as far as a session needs it.
#[derive(Debug)]
pub struct Offer {
    pub height: u64,
    pub difficulty_bits: u32,
    pub fee: Natural,
    pub previous_hash: Vec<u8>,
}

impl View for Offer {
    type V = OfferView;

    open spec fn view(&self) -> OfferView {
        OfferView {
            height: self.height,
            difficulty_bits: self.difficulty_bits,
            fee: self.fee@,
            previous_hash: self.previous_hash@,
        }
    }
}

impl View for Work {
    type V = WorkView;

    open spec fn view(&self) -> WorkView {
        WorkView {
            difficulty: self.difficultyBits@,
            height: self.height@,
            fee: self.miningFeeE8s@,
            previous_hash: self.previousHash@,
        }
    }
}

/// Where a session stands.
#[derive(Debug)]
pub enum Phase {
    Idle,
    FetchingWork,
    FetchingPoolConfig(Offer),
    FetchingAllowance(Offer, Option<u32>),
    FetchingBalance(Offer, Option<u32>, Natural),
    Starting(MiningJob),
    Searching(Search),
    CheckingWork(Search),
    SubmittingProof,
    SubmittingShare,
    Finished,
}

impl View for Phase {
    type V = PhaseView;

    open spec fn view(&self) -> PhaseView {
        match self {
            Phase::Idle => PhaseView::Idle,
            Phase::FetchingWork => PhaseView::FetchingWork,
            Phase::FetchingPoolConfig(o) => PhaseView::FetchingPoolConfig(o@),
            Phase::FetchingAllowance(o, b) => PhaseView::FetchingAllowance(o@, *b),
            Phase::FetchingBalance(o, b, a) => PhaseView::FetchingBalance(o@, *b, a@),
            Phase::Starting(job) => PhaseView::Starting(*job),
            Phase::Searching(search) => PhaseView::Searching(*search),
            Phase::CheckingWork(search) => PhaseView::CheckingWork(*search),
            Phase::SubmittingProof => PhaseView::SubmittingProof,
            Phase::SubmittingShare => PhaseView::SubmittingShare,
            Phase::Finished => PhaseView::Finished,
        }
    }
}

/// A session: what it has done so far, and where it stands.
#[derive(Debug)]
pub struct Supervisor {
    pub session_attempts: u64,
    pub session_blocks: u64,
    pub phase: Phase,
}

impl View for Supervisor {
    type V = SupervisorView;

    open spec fn view(&self) -> SupervisorView {
        SupervisorView {
            session_attempts: self.session_attempts,
            session_blocks: self.session_blocks,
            phase: self.phase@,
        }
    }
}

/// What can happen to a session.
#[derive(Debug)]
pub enum Event {
    Begin { stop: bool },
    GotWork { work: Result<Work, String>, pool_requested: bool },
    GotPoolConfig(Result<PoolConfig, String>),
    GotAllowance(Option<Natural>),
    GotBalance { balance: Option<Natural>, gpu_requested: bool },
    Started { now: u64 },
    Tick { stop: bool, winner: Winner, now: u64, share: Option<u64>, hash_count: u64 },
    ProofAnswered(Result<SubmitResult, String>),
    ShareAnswered(Result<ShareResult, String>),
    Rechecked(Option<Work>),
}

/// Whether a refusal comes of an allowance or a balance that does not suffice.
pub open spec fn insufficient(why: SubmitError) -> bool {
    match why {
        SubmitError::IcpFeeFailed(TransferFromError::InsufficientAllowance { .. }) => true,
        SubmitError::IcpFeeFailed(TransferFromError::InsufficientFunds { .. }) => true,
        _ => false,
    }
}

/// What the answer to a block means.
pub open spec fn proof_answer(answer: Result<SubmitResult, String>) -> ProofAnswerView {
    match answer {
        Ok(Ok(won)) => ProofAnswerView::Won { height: won.height@, reward: won.reward@ },
        Ok(Err(why)) => if insufficient(why) {
            ProofAnswerView::Unpaid
        } else {
            ProofAnswerView::Refused(why.shown())
        },
        Err(e) => ProofAnswerView::Failed(e@),
    }
}

/// What the pool's answer to a block means.
pub open spec fn share_answer(answer: Result<ShareResult, String>) -> ShareAnswerView {
    match answer {
        Ok(Ok(outcome)) => if outcome.isBlockWinner {
            match outcome.poolSubmitResult {
                Some(Ok(won)) => ShareAnswerView::BlockWon(won.height@),
                _ => ShareAnswerView::WinPending,
            }
        } else {
            ShareAnswerView::Accepted
        },
        Ok(Err(why)) => ShareAnswerView::Refused(why.shown()),
        Err(e) => ShareAnswerView::Failed(e@),
    }
}

/// A number of any size that may be missing, by its view.
pub open spec fn natural_view(n: Option<Natural>) -> Option<nat> {
    match n {
        Some(n) => Some(n@),
        None => None,
    }
}

impl View for Event {
    type V = EventView;

    open spec fn view(&self) -> EventView {
        match *self {
            Event::Begin { stop } => EventView::Begin { stop },
            Event::GotWork { work, pool_requested } => EventView::GotWork {
                work: match work {
                    Ok(w) => Ok(w@),
                    Err(e) => Err(e@),
                },
                pool_requested,
            },
            Event::GotPoolConfig(config) => EventView::GotPoolConfig(
                match config {
                    Ok(c) => Ok(c.shareDifficultyBits@),
                    Err(e) => Err(e@),
                },
            ),
            Event::GotAllowance(n) => EventView::GotAllowance(natural_view(n)),
            Event::GotBalance { balance, gpu_requested } => EventView::GotBalance {
                balance: natural_view(balance),
                gpu_requested,
            },
            Event::Started { now } => EventView::Started { now },
            Event::Tick { stop, winner, now, share, hash_count } => EventView::Tick {
                stop,
                winner,
                now,
                share,
                hash_count,
            },
            Event::ProofAnswered(answer) => EventView::ProofAnswered(proof_answer(answer)),
            Event::ShareAnswered(answer) => EventView::ShareAnswered(share_answer(answer)),
            Event::Rechecked(work) => EventView::Rechecked(
                match work {
                    Some(w) => Some(w.height@),
                    None => None,
                },
            ),
        }
    }
}

/// What a session wants done.
#[derive(Debug)]
pub enum Action {
    FetchWork,
    FetchPoolConfig,
    FetchAllowance { pool: bool },
    FetchBalance,
    StartSearch { job: MiningJob, gpu: bool },
    StopSearch,
    SubmitProof { nonce: u64 },
    SubmitShare { height: u64, nonce: u64 },
    SendShare { height: u64, nonce: u64 },
    Report(HashReport),
    Heartbeat,
    RecheckWork,
    SetStop,
    Emit(MiningProgress),
    Sleep(u64),
}

impl View for Action {
    type V = ActionView;

    open spec fn view(&self) -> ActionView {
        match *self {
            Action::FetchWork => ActionView::FetchWork,
            Action::FetchPoolConfig => ActionView::FetchPoolConfig,
            Action::FetchAllowance { pool } => ActionView::FetchAllowance { pool },
            Action::FetchBalance => ActionView::FetchBalance,
            Action::StartSearch { job, gpu } => ActionView::StartSearch { job, gpu },
            Action::StopSearch => ActionView::StopSearch,
            Action::SubmitProof { nonce } => ActionView::SubmitProof { nonce },
            Action::SubmitShare { height, nonce } => ActionView::SubmitShare { height, nonce },
            Action::SendShare { height, nonce } => ActionView::SendShare { height, nonce },
            Action::Report(report) => ActionView::Report(report),
            Action::Heartbeat => ActionView::Heartbeat,
            Action::RecheckWork => ActionView::RecheckWork,
            Action::SetStop => ActionView::SetStop,
            Action::Emit(progress) => ActionView::Emit(progress@),
            Action::Sleep(millis) => ActionView::Sleep(millis),
        }
    }
}

/// Actions by their views.
pub open spec fn seen(actions: Seq<Action>) -> Seq<ActionView> {
    Seq::new(actions.len(), |i: int| actions[i]@)
}

/// One action.
fn one(a: Action) -> (actions: Vec<Action>)
    ensures
        seen(actions@) == seq![a@],
{
    let mut actions: Vec<Action> = Vec::new();
    actions.push(a);
    proof {
        assert(seen(actions@) =~= seq![a@]);
    }
    actions
}

/// Two actions, one after the other.
fn two(a: Action, b: Action) -> (actions: Vec<Action>)
    ensures
        seen(actions@) == seq![a@, b@],
{
    let mut actions = one(a);
    let ghost first = actions@;
    actions.push(b);
    proof {
        assert(first.len() == seen(first).len());
        assert(seen(actions@) =~= seq![a@, b@]) by {
            assert(seen(first)[0] == first[0]@);
        }
    }
    actions
}

/// Adds an action.
fn also(actions: &mut Vec<Action>, a: Action)
    ensures
        seen(final(actions)@) == seen(old(actions)@).push(a@),
{
    let ghost before = actions@;
    actions.push(a);
    proof {
        assert(seen(actions@) =~= seen(before).push(a@));
    }
}

/// Whether a refusal comes of an allowance or a balance that does not suffice.
fn is_insufficient(why: &SubmitError) -> (yes: bool)
    ensures
        yes == insufficient(*why),
{
    match why {
        SubmitError::IcpFeeFailed(TransferFromError::InsufficientAllowance { .. }) => true,
        SubmitError::IcpFeeFailed(TransferFromError::InsufficientFunds { .. }) => true,
        _ => false,
    }
}

/// Reads a height as 64 bits, zero if it does not fit.
fn to_u64_or_zero(n: &Natural) -> (r: u64)
    ensures
        r == u64_or_zero(n@),
{
    match n.to_u64() {
        Some(m) => m,
        None => 0,
    }
}

/// What a session needs of the work that was handed out.
fn make_offer(work: Work) -> (o: Offer)
    ensures
        o@ == offer(work@),
{
    Offer {
        height: to_u64_or_zero(&work.height),
        difficulty_bits: match work.difficultyBits.to_u32() {
            Some(bits) => bits,
            None => 0,
        },
        fee: work.miningFeeE8s,
        previous_hash: work.previousHash,
    }
}

/// The time from `last` to `now`, zero if `last` is the later one.
fn nanos_since(now: u64, last: i128) -> (nanos: i128)
    requires
        is_time(last),
    ensures
        nanos == since(now, last),
{
    if (now as i128) > last {
        now as i128 - last
    } else {
        0
    }
}

/// What is said when mining cannot be paid for.
fn unpaid_message(pool: bool) -> (s: &'static str)
    ensures
        s@ == unpaid_text(pool),
{
    if pool {
        "Mining stopped: insufficient ICP allowance/balance for the pool -- approve more ICP to keep mining."
    } else {
        "Mining stopped: insufficient ICP allowance/balance -- approve more ICP to keep mining."
    }
}

impl Supervisor {
    /// The times that a running search has noted are times.
    pub open spec fn wf(self) -> bool {
        match self.phase {
            Phase::Searching(search) => search.wf(),
            Phase::CheckingWork(search) => search.wf(),
            _ => true,
        }
    }

    /// A session that has done nothing yet.
    pub fn new() -> (s: Supervisor)
        ensures
            s.wf(),
            s@ == (SupervisorView {
                session_attempts: 0,
                session_blocks: 0,
                phase: PhaseView::Idle,
            }),
    {
        Supervisor { session_attempts: 0, session_blocks: 0, phase: Phase::Idle }
    }

    /// Whether the session is over.
    pub fn is_finished(&self) -> (finished: bool)
        ensures
            finished == (self@.phase is Finished),
    {
        match self.phase {
            Phase::Finished => true,
            _ => false,
        }
    }

    /// The same session in another phase.
    fn at(self, phase: Phase) -> (s: Supervisor)
        ensures
            s@ == self@.at(phase@),
            s.phase == phase,
    {
        Supervisor {
            session_attempts: self.session_attempts,
            session_blocks: self.session_blocks,
            phase,
        }
    }

    /// A message about this session.
    fn says(&self, message: &str, kind: &str) -> (a: Action)
        ensures
            a@ == self@.says(message@, kind@),
    {
        Action::Emit(
            emit_progress(0, self.session_attempts, self.session_blocks, message, kind),
        )
    }

    /// The message that this session has stopped.
    fn says_stopped(&self, message: &str) -> (a: Action)
        ensures
            a@ == self@.says_stopped(message@),
    {
        Action::Emit(emit_stopped(self.session_attempts, self.session_blocks, message))
    }

    /// The work has come, or why it has not.
    fn work_came(self, work: Result<Work, String>, pool_requested: bool) -> (r: (
        Supervisor,
        Vec<Action>,
    ))
        ensures
            r.0.wf(),
            (r.0@, seen(r.1@)) == on_work(
                self@,
                match work {
                    Ok(w) => Ok(w@),
                    Err(e) => Err(e@),
                },
                pool_requested,
            ),
    {
        match work {
            Err(e) => {
                let message = join2("Failed to fetch work: ", e.as_str());
                let actions = two(
                    self.says(message.as_str(), "critical"),
                    Action::Sleep(RETRY_MILLIS),
                );
                (self.at(Phase::Idle), actions)
            },
            Ok(w) => {
                let o = make_offer(w);
                if pool_requested {
                    (self.at(Phase::FetchingPoolConfig(o)), one(Action::FetchPoolConfig))
                } else {
                    (
                        self.at(Phase::FetchingAllowance(o, None)),
                        one(Action::FetchAllowance { pool: false }),
                    )
                }
            },
        }
    }

    /// The pool's share target has come, or why it has not.
    fn pool_config_came(self, o: Offer, config: Result<PoolConfig, String>) -> (r: (
        Supervisor,
        Vec<Action>,
    ))
        ensures
            r.0.wf(),
            (r.0@, seen(r.1@)) == on_pool_config(
                self@,
                o@,
                match config {
                    Ok(c) => Ok(c.shareDifficultyBits@),
                    Err(e) => Err(e@),
                },
            ),
    {
        match config {
            Ok(c) => {
                let bits: Option<u32> = c.shareDifficultyBits.to_u32();
                (
                    self.at(Phase::FetchingAllowance(o, bits)),
                    one(Action::FetchAllowance { pool: bits.is_some() }),
                )
            },
            Err(e) => {
                let message = join3(
                    "Pool config unavailable (",
                    e.as_str(),
                    ") -- mining solo this round",
                );
                let actions = two(
                    self.says(message.as_str(), ""),
                    Action::FetchAllowance { pool: false },
                );
                (self.at(Phase::FetchingAllowance(o, None)), actions)
            },
        }
    }

    /// What is owned has come, or not.
    fn balance_came(
        self,
        o: Offer,
        share_bits: Option<u32>,
        allowance: Natural,
        balance: Option<Natural>,
        gpu_requested: bool,
    ) -> (r: (Supervisor, Vec<Action>))
        ensures
            r.0.wf(),
            (r.0@, seen(r.1@)) == on_balance(
                self@,
                o@,
                share_bits,
                allowance@,
                natural_view(balance),
                gpu_requested,
            ),
    {
        let known: Natural = match balance {
            Some(n) => n,
            None => Natural::zero(),
        };
        if !can_afford(&allowance, &known, &o.fee) {
            let actions = two(
                Action::SetStop,
                self.says_stopped(unpaid_message(share_bits.is_some())),
            );
            return (self.at(Phase::Finished), actions);
        }
        match array32(&o.previous_hash) {
            None => {
                let actions = two(
                    self.says("Unexpected header length from mother", "critical"),
                    Action::Sleep(RETRY_MILLIS),
                );
                (self.at(Phase::Idle), actions)
            },
            Some(previous_hash) => {
                let job = MiningJob {
                    previous_hash,
                    height: o.height,
                    difficulty_bits: o.difficulty_bits,
                    share_difficulty_bits: share_bits,
                };
                proof {
                    hash_of_its_bytes(o.previous_hash@);
                    assert(job == job_of(o@, share_bits));
                }
                let start = Action::StartSearch { job, gpu: gpu_requested };
                (self.at(Phase::Starting(job)), one(start))
            },
        }
    }

    /// It is time to look at the search.
    fn look(
        self,
        search: Search,
        stop: bool,
        winner: Winner,
        now: u64,
        share: Option<u64>,
        hash_count: u64,
    ) -> (r: (Supervisor, Vec<Action>))
        requires
            search.wf(),
            !stop && winner is NoneYet ==> ticked_attempts(self@, search, now, hash_count)
                <= u64::MAX,
        ensures
            r.0.wf(),
            (r.0@, seen(r.1@)) == on_tick(self@, search, stop, winner, now, share, hash_count),
    {
        if stop {
            return (self.at(Phase::Finished), one(Action::StopSearch));
        }
        match winner {
            Winner::Nonce(nonce) => {
                if search.job.share_difficulty_bits.is_some() {
                    let submit = Action::SubmitShare { height: search.job.height, nonce };
                    (self.at(Phase::SubmittingShare), two(Action::StopSearch, submit))
                } else {
                    let submit = Action::SubmitProof { nonce };
                    (self.at(Phase::SubmittingProof), two(Action::StopSearch, submit))
                }
            },
            Winner::Gone => {
                let said = self.says_stopped("Mining threads stopped unexpectedly");
                (self.at(Phase::Finished), one(said))
            },
            Winner::NoneYet => self.go_on(search, now, share, hash_count),
        }
    }

    /// Does what is due while a search has found nothing.
    fn go_on(self, search: Search, now: u64, share: Option<u64>, hash_count: u64) -> (r: (
        Supervisor,
        Vec<Action>,
    ))
        requires
            search.wf(),
            ticked_attempts(self@, search, now, hash_count) <= u64::MAX,
        ensures
            r.0.wf(),
            (r.0@, seen(r.1@)) == on_tick(
                self@,
                search,
                false,
                Winner::NoneYet,
                now,
                share,
                hash_count,
            ),
    {
        let pooled: bool = search.job.share_difficulty_bits.is_some();
        let mut next = search;
        let mut session_attempts: u64 = self.session_attempts;
        let mut actions: Vec<Action> = Vec::new();
        proof {
            assert(seen(actions@) =~= seq![]);
        }
        let latest: Option<u64> = match share {
            Some(nonce) => Some(nonce),
            None => search.pending_share,
        };
        next.pending_share = latest;
        if let Some(nonce) = latest {
            if pooled && nanos_since(now, search.last_share_sent) >= SHARE_INTERVAL_NANOS as i128 {
                next.last_share_sent = now as i128;
                next.pending_share = None;
                also(&mut actions, Action::SendShare { height: search.job.height, nonce });
            }
        }
        let nanos: i128 = nanos_since(now, search.last_report);
        if nanos >= REPORT_INTERVAL_NANOS as i128 {
            let hashes: u64 = hash_count.saturating_sub(search.last_hash_count);
            session_attempts = session_attempts + hashes;
            next.last_hash_count = hash_count;
            next.last_report = now as i128;
            let report = HashReport {
                hashes,
                nanos: nanos as u64,
                session_attempts,
                session_blocks: self.session_blocks,
            };
            also(&mut actions, Action::Report(report));
        }
        if pooled && nanos_since(now, search.last_heartbeat) >= HEARTBEAT_INTERVAL_NANOS as i128 {
            next.last_heartbeat = now as i128;
            also(&mut actions, Action::Heartbeat);
        }
        let session_blocks: u64 = self.session_blocks;
        let stale: bool = nanos_since(now, search.last_stale_check) >= STALE_INTERVAL_NANOS as i128;
        let phase = if stale {
            next.last_stale_check = now as i128;
            also(&mut actions, Action::RecheckWork);
            Phase::CheckingWork(next)
        } else {
            also(&mut actions, Action::Sleep(TICK_MILLIS));
            Phase::Searching(next)
        };
        proof {
            assert(next == ticked(search, now, share, hash_count));
            assert(seen(actions@) =~= due_actions(self@, search, now, share, hash_count));
        }
        (Supervisor { session_attempts, session_blocks, phase }, actions)
    }

    /// The height that is worked on by now has come, or not.
    fn work_rechecked(self, search: Search, work: Option<Work>) -> (r: (Supervisor, Vec<Action>))
        requires
            search.wf(),
        ensures
            r.0.wf(),
            (r.0@, seen(r.1@)) == on_recheck(
                self@,
                search,
                match work {
                    Some(w) => Some(w.height@),
                    None => None,
                },
            ),
    {
        let moved_on: bool = match work {
            Some(w) => to_u64_or_zero(&w.height) != search.job.height,
            None => false,
        };
        if moved_on {
            (self.at(Phase::Idle), one(Action::StopSearch))
        } else {
            (self.at(Phase::Searching(search)), one(Action::Sleep(TICK_MILLIS)))
        }
    }

    /// The same session with one more block, at the start of a round.
    fn with_block(self) -> (s: Supervisor)
        requires
            self.session_blocks < u64::MAX,
        ensures
            s.wf(),
            s@ == self@.with_block(),
    {
        Supervisor {
            session_attempts: self.session_attempts,
            session_blocks: self.session_blocks + 1,
            phase: Phase::Idle,
        }
    }

    /// The answer to a block has come.
    fn proof_answered(self, answer: Result<SubmitResult, String>) -> (r: (Supervisor, Vec<Action>))
        requires
            proof_answer(answer) is Won ==> self.session_blocks < u64::MAX,
        ensures
            r.0.wf(),
            (r.0@, seen(r.1@)) == on_proof(self@, proof_answer(answer)),
    {
        match answer {
            Ok(Ok(won)) => {
                let next = self.with_block();
                let height = nat_to_plain_string(&won.height);
                let reward = format_piko(&won.reward);
                let message = join5("Block #", height.as_str(), " won -- +", reward.as_str(), " PIKO");
                let said = next.says(message.as_str(), "good");
                (next, one(said))
            },
            Ok(Err(why)) => {
                if is_insufficient(&why) {
                    let actions = two(Action::SetStop, self.says_stopped(unpaid_message(false)));
                    return (self.at(Phase::Finished), actions);
                }
                let message = join3("Not accepted: ", why.show().as_str(), " -- still mining");
                let said = self.says(message.as_str(), "");
                (self.at(Phase::Idle), one(said))
            },
            Err(e) => {
                let message = join3("Submission failed: ", e.as_str(), " -- still mining");
                let said = self.says(message.as_str(), "");
                (self.at(Phase::Idle), one(said))
            },
        }
    }

    /// The pool's answer to a block has come.
    fn share_answered(self, answer: Result<ShareResult, String>) -> (r: (Supervisor, Vec<Action>))
        requires
            share_answer(answer) is BlockWon || share_answer(answer) is WinPending
                ==> self.session_blocks < u64::MAX,
        ensures
            r.0.wf(),
            (r.0@, seen(r.1@)) == on_share(self@, share_answer(answer)),
    {
        match answer {
            Ok(Ok(outcome)) => {
                if !outcome.isBlockWinner {
                    let said = self.says("Share accepted by the pool", "");
                    return (self.at(Phase::Idle), one(said));
                }
                let next = self.with_block();
                match outcome.poolSubmitResult {
                    Some(Ok(won)) => {
                        let height = nat_to_plain_string(&won.height);
                        let message = join3(
                            "Pool won block #",
                            height.as_str(),
                            "! Reward split is credited by the pool -- claim it from there.",
                        );
                        let said = next.says(message.as_str(), "good");
                        (next, one(said))
                    },
                    _ => {
                        let said = next.says("Pool found a winning share -- reward pending", "good");
                        (next, one(said))
                    },
                }
            },
            Ok(Err(why)) => {
                let message = join3("Share not accepted: ", why.show().as_str(), " -- still mining");
                let said = self.says(message.as_str(), "");
                (self.at(Phase::Idle), one(said))
            },
            Err(e) => {
                let message = join3("Share submission failed: ", e.as_str(), " -- still mining");
                let said = self.says(message.as_str(), "");
                (self.at(Phase::Idle), one(said))
            },
        }
    }

    /// Whether an event is one that this session waits for, and its counts can take it.
    pub fn accepts(&self, event: &Event) -> (yes: bool)
        requires
            self.wf(),
        ensures
            yes == (expects(self@, event@) && has_room(self@, event@)),
    {
        match (event, &self.phase) {
            (Event::Begin { .. }, Phase::Idle) => true,
            (Event::GotWork { .. }, Phase::FetchingWork) => true,
            (Event::GotPoolConfig(_), Phase::FetchingPoolConfig(_)) => true,
            (Event::GotAllowance(_), Phase::FetchingAllowance(_, _)) => true,
            (Event::GotBalance { .. }, Phase::FetchingBalance(_, _, _)) => true,
            (Event::Started { .. }, Phase::Starting(_)) => true,
            (Event::Tick { stop, winner, now, hash_count, .. }, Phase::Searching(search)) => {
                let idle: bool = match winner {
                    Winner::NoneYet => !*stop,
                    _ => false,
                };
                if idle && nanos_since(*now, search.last_report) >= REPORT_INTERVAL_NANOS as i128 {
                    let hashes: u64 = hash_count.saturating_sub(search.last_hash_count);
                    hashes <= u64::MAX - self.session_attempts
                } else {
                    true
                }
            },
            (Event::ProofAnswered(answer), Phase::SubmittingProof) => match answer {
                Ok(Ok(_)) => self.session_blocks < u64::MAX,
                _ => true,
            },
            (Event::ShareAnswered(answer), Phase::SubmittingShare) => match answer {
                Ok(Ok(outcome)) => !outcome.isBlockWinner || self.session_blocks < u64::MAX,
                _ => true,
            },
            (Event::Rechecked(_), Phase::CheckingWork(_)) => true,
            _ => false,
        }
    }

    /// Takes an event that this session waits for: the session after it, and what is to
    /// be done, in this order.
    pub fn step(self, event: Event) -> (r: (Supervisor, Vec<Action>))
        requires
            self.wf(),
            expects(self@, event@),
            has_room(self@, event@),
        ensures
            r.0.wf(),
            (r.0@, seen(r.1@)) == step(self@, event@),
    {
        let session_attempts: u64 = self.session_attempts;
        let session_blocks: u64 = self.session_blocks;
        let idle = Supervisor { session_attempts, session_blocks, phase: Phase::Idle };
        match (event, self.phase) {
            (Event::Begin { stop }, Phase::Idle) => {
                if stop {
                    let none: Vec<Action> = Vec::new();
                    proof {
                        assert(seen(none@) =~= seq![]);
                    }
                    (idle.at(Phase::Finished), none)
                } else {
                    (idle.at(Phase::FetchingWork), one(Action::FetchWork))
                }
            },
            (Event::GotWork { work, pool_requested }, Phase::FetchingWork) => idle.work_came(
                work,
                pool_requested,
            ),
            (Event::GotPoolConfig(config), Phase::FetchingPoolConfig(o)) => idle.pool_config_came(
                o,
                config,
            ),
            (Event::GotAllowance(allowance), Phase::FetchingAllowance(o, bits)) => {
                let known: Natural = match allowance {
                    Some(n) => n,
                    None => Natural::zero(),
                };
                (idle.at(Phase::FetchingBalance(o, bits, known)), one(Action::FetchBalance))
            },
            (
                Event::GotBalance { balance, gpu_requested },
                Phase::FetchingBalance(o, bits, allowance),
            ) => idle.balance_came(o, bits, allowance, balance, gpu_requested),
            (Event::Started { now }, Phase::Starting(job)) => {
                let search = Search {
                    job,
                    last_report: now as i128,
                    last_hash_count: 0,
                    last_stale_check: now as i128,
                    last_heartbeat: now as i128 - HEARTBEAT_HEAD_START_NANOS as i128,
                    last_share_sent: now as i128 - SHARE_HEAD_START_NANOS as i128,
                    pending_share: None,
                };
                let none: Vec<Action> = Vec::new();
                proof {
                    assert(seen(none@) =~= seq![]);
                    assert(search == new_search(job, now));
                }
                (idle.at(Phase::Searching(search)), none)
            },
            (
                Event::Tick { stop, winner, now, share, hash_count },
                Phase::Searching(search),
            ) => idle.look(search, stop, winner, now, share, hash_count),
            (Event::ProofAnswered(answer), Phase::SubmittingProof) => idle.proof_answered(answer),
            (Event::ShareAnswered(answer), Phase::SubmittingShare) => idle.share_answered(answer),
            (Event::Rechecked(work), Phase::CheckingWork(search)) => idle.work_rechecked(
                search,
                work,
            ),
            (_, phase) => {
                let none: Vec<Action> = Vec::new();
                (idle.at(phase), none)
            },
        }
    }
}

} // verus!
