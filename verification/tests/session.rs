use piko_miner::dashboard::{network_stats, pool_share_texts, pool_stats_texts};
use piko_miner::miner::MiningJob;
use piko_miner::natural::{Integer, Natural};
use piko_miner::principal::Principal;
use piko_miner::supervisor::model::{HashReport, Winner};
use piko_miner::supervisor::{emit_progress, emit_stopped, Action, Event, Phase, Supervisor};
use piko_miner::types::{
    Block, MyShare, PoolConfig, PoolStats, ShareError, ShareOutcome, Stats, SubmitError, SubmitOk,
    TransferFromError, Work,
};

const SECOND: u64 = 1_000_000_000;
const MILLI: u64 = 1_000_000;

fn n(value: u64) -> Natural {
    Natural::from_u64(value)
}

fn huge() -> Natural {
    Natural::parse(b"340282366920938463463374607431768211456").unwrap()
}

fn work(height: u64) -> Work {
    Work {
        difficultyBits: n(30),
        height: n(height),
        miningFeeE8s: n(90_000),
        previousHash: vec![0x42; 32],
        reward: n(5_000_000_000),
    }
}

fn pool_config(bits: Natural) -> PoolConfig {
    PoolConfig { shareDifficultyBits: bits, networkDifficultyBits: n(30), height: n(7) }
}

fn step(s: Supervisor, e: Event) -> (Supervisor, Vec<Action>) {
    assert!(s.accepts(&e));
    s.step(e)
}

fn got_balance(balance: Option<Natural>) -> Event {
    Event::GotBalance { balance, gpu_requested: false }
}

fn message(action: &Action) -> (&str, &str, bool) {
    match action {
        Action::Emit(p) => (&p.message, &p.message_kind, p.stopped),
        other => panic!("{other:?}"),
    }
}

fn fetching_work() -> Supervisor {
    let (s, actions) = step(Supervisor::new(), Event::Begin { stop: false });
    assert!(matches!(actions[..], [Action::FetchWork]));
    s
}

fn fetching_allowance(pool: bool) -> Supervisor {
    let (s, actions) = step(fetching_work(), Event::GotWork { work: Ok(work(7)), pool_requested: pool });
    if !pool {
        assert!(matches!(actions[..], [Action::FetchAllowance { pool: false }]));
        return s;
    }
    assert!(matches!(actions[..], [Action::FetchPoolConfig]));
    let (s, actions) = step(s, Event::GotPoolConfig(Ok(pool_config(n(20)))));
    assert!(matches!(actions[..], [Action::FetchAllowance { pool: true }]));
    s
}

fn fetching_balance(pool: bool, allowance: Option<Natural>) -> Supervisor {
    let (s, actions) = step(fetching_allowance(pool), Event::GotAllowance(allowance));
    assert!(matches!(actions[..], [Action::FetchBalance]));
    s
}

fn job_of(action: &Action) -> MiningJob {
    match action {
        Action::StartSearch { job, gpu: false } => *job,
        other => panic!("{other:?}"),
    }
}

fn searching(pool: bool, now: u64) -> Supervisor {
    let s = fetching_balance(pool, Some(n(100_000)));
    let (s, actions) = step(s, got_balance(Some(n(100_000))));
    assert_eq!(actions.len(), 1);
    let job = job_of(&actions[0]);
    assert_eq!(job.previous_hash, [0x42; 32]);
    assert_eq!((job.height, job.difficulty_bits), (7, 30));
    assert_eq!(job.share_difficulty_bits, if pool { Some(20) } else { None });
    let (s, actions) = step(s, Event::Started { now });
    assert!(actions.is_empty());
    s
}

fn tick(now: u64, share: Option<u64>, hash_count: u64) -> Event {
    Event::Tick { stop: false, winner: Winner::NoneYet, now, share, hash_count }
}

fn found(pool: bool) -> (Supervisor, Vec<Action>) {
    let winner = Winner::Nonce(4409);
    let e = Event::Tick { stop: false, winner, now: 5, share: None, hash_count: 0 };
    step(searching(pool, 0), e)
}

#[test]
fn a_stopped_round_does_not_begin() {
    let (s, actions) = step(Supervisor::new(), Event::Begin { stop: true });
    assert!(actions.is_empty());
    assert!(s.is_finished());
    assert!(!s.accepts(&Event::Begin { stop: false }));
    assert!(!Supervisor::new().is_finished());
}

#[test]
fn missing_work_is_tried_again() {
    let e = Event::GotWork { work: Err("getWork call failed".to_string()), pool_requested: true };
    let (s, actions) = step(fetching_work(), e);
    assert_eq!(message(&actions[0]), ("Failed to fetch work: getWork call failed", "critical", false));
    assert!(matches!(actions[1..], [Action::Sleep(3000)]));
    assert!(s.accepts(&Event::Begin { stop: false }));
}

#[test]
fn a_silent_pool_is_left_out() {
    let (s, _) = step(fetching_work(), Event::GotWork { work: Ok(work(7)), pool_requested: true });
    let (s, actions) = step(s, Event::GotPoolConfig(Err("no answer".to_string())));
    assert_eq!(
        message(&actions[0]),
        ("Pool config unavailable (no answer) -- mining solo this round", "", false)
    );
    assert!(matches!(actions[1..], [Action::FetchAllowance { pool: false }]));
    assert!(matches!(s.phase, Phase::FetchingAllowance(_, None)));
}

#[test]
fn a_share_target_that_does_not_fit_is_left_out() {
    let (s, _) = step(fetching_work(), Event::GotWork { work: Ok(work(7)), pool_requested: true });
    let (s, actions) = step(s, Event::GotPoolConfig(Ok(pool_config(n(1 << 32)))));
    assert!(matches!(actions[..], [Action::FetchAllowance { pool: false }]));
    assert!(matches!(s.phase, Phase::FetchingAllowance(_, None)));
}

#[test]
fn the_session_ends_without_money() {
    for pool in [false, true] {
        for (allowance, balance) in [
            (Some(n(99_999)), Some(n(100_000))),
            (Some(n(100_000)), Some(n(99_999))),
            (None, Some(huge())),
            (Some(huge()), None),
        ] {
            let (s, actions) = step(fetching_balance(pool, allowance), got_balance(balance));
            assert!(matches!(actions[0], Action::SetStop));
            let text = if pool {
                "Mining stopped: insufficient ICP allowance/balance for the pool -- approve more ICP to keep mining."
            } else {
                "Mining stopped: insufficient ICP allowance/balance -- approve more ICP to keep mining."
            };
            assert_eq!(message(&actions[1]), (text, "critical", true));
            assert_eq!(actions.len(), 2);
            assert!(s.is_finished());
        }
    }
}

#[test]
fn a_bad_header_is_tried_again() {
    let odd = Work { previousHash: vec![0; 31], ..work(7) };
    let (s, _) = step(fetching_work(), Event::GotWork { work: Ok(odd), pool_requested: false });
    let (s, _) = step(s, Event::GotAllowance(Some(huge())));
    let (s, actions) = step(s, got_balance(Some(huge())));
    assert_eq!(message(&actions[0]), ("Unexpected header length from mother", "critical", false));
    assert!(matches!(actions[1..], [Action::Sleep(3000)]));
    assert!(matches!(s.phase, Phase::Idle));
}

#[test]
fn numbers_that_do_not_fit_count_as_zero() {
    let odd = Work { difficultyBits: huge(), height: huge(), ..work(7) };
    let (s, _) = step(fetching_work(), Event::GotWork { work: Ok(odd), pool_requested: false });
    let (s, _) = step(s, Event::GotAllowance(Some(huge())));
    let (_, actions) = step(s, got_balance(Some(huge())));
    let job = job_of(&actions[0]);
    assert_eq!((job.height, job.difficulty_bits), (0, 0));
}

#[test]
fn the_device_is_started_if_wanted() {
    for gpu_requested in [false, true] {
        let s = fetching_balance(false, Some(huge()));
        let (_, actions) = step(s, Event::GotBalance { balance: Some(huge()), gpu_requested });
        assert!(matches!(actions[..], [Action::StartSearch { job, gpu }]
            if gpu == gpu_requested && job.previous_hash == [0x42; 32]));
    }
}

// The attempts, the blocks, the kind and the end of each message that a session sends.
fn sent(actions: &[Action]) -> Vec<(u64, u64, String, bool)> {
    actions
        .iter()
        .filter_map(|a| match a {
            Action::Emit(p) => {
                Some((p.session_attempts, p.session_blocks, p.message_kind.clone(), p.stopped))
            }
            Action::Report(r) => Some((r.session_attempts, r.session_blocks, String::new(), false)),
            _ => None,
        })
        .collect()
}

#[test]
fn messages_follow_each_other() {
    let won = || SubmitOk { hash: vec![], height: n(8), reward: n(1) };
    let solved = |now: u64| {
        Event::Tick { stop: false, winner: Winner::Nonce(1), now, share: None, hash_count: 0 }
    };
    let mut events = Vec::new();
    for round in 0..2u64 {
        events.push(Event::Begin { stop: false });
        events.push(Event::GotWork { work: Err("e".to_string()), pool_requested: false });
        events.push(Event::Begin { stop: false });
        events.push(Event::GotWork { work: Ok(work(7)), pool_requested: true });
        events.push(Event::GotPoolConfig(Err("e".to_string())));
        events.push(Event::GotAllowance(Some(huge())));
        events.push(got_balance(Some(huge())));
        events.push(Event::Started { now: round * SECOND });
        events.push(tick(round * SECOND + 500 * MILLI, Some(1), 100));
        events.push(tick(round * SECOND + 900 * MILLI, Some(1), 150));
        events.push(solved(round * SECOND + 901 * MILLI));
        events.push(Event::ProofAnswered(Ok(Ok(won()))));
    }
    events.push(Event::Begin { stop: false });
    events.push(Event::GotWork { work: Ok(work(7)), pool_requested: false });
    events.push(Event::GotAllowance(None));
    events.push(got_balance(None));
    let mut s = Supervisor::new();
    let mut messages = Vec::new();
    for e in events {
        let (next, actions) = step(s, e);
        s = next;
        messages.extend(sent(&actions));
    }
    assert!(s.is_finished());
    assert_eq!(messages.len(), 11);
    for pair in messages.windows(2) {
        assert!(pair[0].0 <= pair[1].0);
        assert!(pair[0].1 <= pair[1].1 && pair[1].1 <= pair[0].1 + 1);
        assert!(!pair[0].3);
    }
    assert!(messages.iter().all(|m| ["good", "critical", ""].contains(&m.2.as_str())));
    assert_eq!(messages[10], (300, 2, "critical".to_string(), true));
}

#[test]
fn a_quiet_look_waits() {
    let (s, actions) = step(searching(false, 100 * SECOND), tick(100 * SECOND + 50 * MILLI, Some(3), 9));
    assert!(matches!(actions[..], [Action::Sleep(50)]));
    assert_eq!(s.session_attempts, 0);
}

#[test]
fn hashes_are_reported_every_400_milliseconds() {
    let s = searching(false, 0);
    let (s, actions) = step(s, tick(400 * MILLI - 1, None, 500));
    assert!(matches!(actions[..], [Action::Sleep(50)]));
    let (s, actions) = step(s, tick(400 * MILLI, None, 1000));
    assert!(matches!(actions[..], [Action::Report(r), Action::Sleep(50)]
        if r == HashReport { hashes: 1000, nanos: 400 * MILLI, session_attempts: 1000, session_blocks: 0 }));
    let (s, actions) = step(s, tick(900 * MILLI, None, 1700));
    assert!(matches!(actions[0], Action::Report(r)
        if r == HashReport { hashes: 700, nanos: 500 * MILLI, session_attempts: 1700, session_blocks: 0 }));
    let (s, actions) = step(s, tick(1300 * MILLI, None, 1600));
    assert!(matches!(actions[0], Action::Report(r) if r.hashes == 0 && r.session_attempts == 1700));
    assert_eq!(s.session_attempts, 1700);
}

#[test]
fn counts_that_would_overflow_are_not_accepted() {
    let mut s = searching(false, 0);
    s.session_attempts = u64::MAX;
    assert!(s.accepts(&tick(500 * MILLI, None, 0)));
    assert!(s.accepts(&tick(300 * MILLI, None, 1)));
    assert!(!s.accepts(&tick(500 * MILLI, None, 1)));
    let (mut s, _) = found(false);
    s.session_blocks = u64::MAX;
    assert!(!s.accepts(&Event::ProofAnswered(Ok(Ok(SubmitOk { hash: vec![], height: n(1), reward: n(1) })))));
    assert!(s.accepts(&Event::ProofAnswered(Ok(Err(SubmitError::StaleWork)))));
}

#[test]
fn the_pool_gets_shares_and_signs_of_life() {
    let s = searching(true, 0);
    let (s, actions) = step(s, tick(50 * MILLI, Some(1), 0));
    assert!(matches!(actions[..], [
        Action::SendShare { height: 7, nonce: 1 },
        Action::Heartbeat,
        Action::Sleep(50)
    ]));
    let (s, actions) = step(s, tick(399 * MILLI, Some(2), 0));
    assert!(matches!(actions[..], [Action::Sleep(50)]));
    let (s, actions) = step(s, tick(400 * MILLI, Some(3), 10));
    assert!(matches!(actions[..], [
        Action::SendShare { height: 7, nonce: 3 },
        Action::Report(_),
        Action::Sleep(50)
    ]));
    let (s, actions) = step(s, tick(750 * MILLI, None, 20));
    assert!(matches!(actions[..], [Action::Sleep(50)]));
    let (s, actions) = step(s, tick(20 * SECOND + 49 * MILLI, None, 30));
    assert!(matches!(actions[..], [Action::Report(_), Action::RecheckWork]));
    let (s, actions) = step(s, Event::Rechecked(None));
    assert!(matches!(actions[..], [Action::Sleep(50)]));
    let (_, actions) = step(s, tick(20 * SECOND + 50 * MILLI, None, 30));
    assert!(matches!(actions[..], [Action::Heartbeat, Action::Sleep(50)]));
}

#[test]
fn a_share_that_comes_early_is_sent_later() {
    let (s, actions) = step(searching(true, 0), tick(0, Some(1), 0));
    assert!(matches!(actions[0], Action::SendShare { height: 7, nonce: 1 }));
    let (s, actions) = step(s, tick(100 * MILLI, Some(2), 0));
    assert!(matches!(actions[..], [Action::Sleep(50)]));
    let (s, actions) = step(s, tick(349 * MILLI, None, 0));
    assert!(matches!(actions[..], [Action::Sleep(50)]));
    let (s, actions) = step(s, tick(360 * MILLI, None, 0));
    assert!(matches!(actions[..], [Action::SendShare { height: 7, nonce: 2 }, Action::Sleep(50)]));
    let (_, actions) = step(s, tick(720 * MILLI, None, 0));
    assert!(!actions.iter().any(|a| matches!(a, Action::SendShare { .. })));
}

#[test]
fn a_newer_share_takes_the_place_of_a_pending_one() {
    let (s, _) = step(searching(true, 0), tick(0, Some(1), 0));
    let (s, _) = step(s, tick(100 * MILLI, Some(2), 0));
    let (s, _) = step(s, tick(200 * MILLI, Some(3), 0));
    let (s, actions) = step(s, tick(350 * MILLI, None, 0));
    assert!(matches!(actions[0], Action::SendShare { height: 7, nonce: 3 }));
    let (s, _) = step(s, tick(390 * MILLI, Some(4), 0));
    let (_, actions) = step(s, tick(700 * MILLI, Some(5), 0));
    assert!(matches!(actions[0], Action::SendShare { height: 7, nonce: 5 }));
}

#[test]
fn a_running_search_keeps_its_mode() {
    for pool in [false, true] {
        let mut s = searching(pool, 0);
        for k in 1..100u64 {
            let (next, actions) = step(s, tick(k * 100 * MILLI, None, 10 * k));
            s = next;
            if matches!(actions.last(), Some(Action::RecheckWork)) {
                s = step(s, Event::Rechecked(Some(work(7)))).0;
            }
        }
        let winner = Winner::Nonce(1);
        let e = Event::Tick { stop: false, winner, now: 11 * SECOND, share: None, hash_count: 2000 };
        let (_, actions) = step(s, e);
        if pool {
            assert!(matches!(actions[1], Action::SubmitShare { height: 7, nonce: 1 }));
        } else {
            assert!(matches!(actions[1], Action::SubmitProof { nonce: 1 }));
        }
    }
}

#[test]
fn the_chain_is_looked_at_every_3_seconds() {
    let (s, actions) = step(searching(false, 0), tick(3 * SECOND - 1, None, 0));
    assert!(matches!(actions[..], [Action::Report(_), Action::Sleep(50)]));
    let (s, actions) = step(s, tick(3 * SECOND, None, 0));
    assert!(matches!(actions[..], [Action::RecheckWork]));
    assert!(!s.accepts(&tick(4 * SECOND, None, 0)));
    let (s, actions) = step(s, Event::Rechecked(Some(work(7))));
    assert!(matches!(actions[..], [Action::Sleep(50)]));
    let (s, actions) = step(s, tick(6 * SECOND, None, 0));
    assert!(matches!(actions[..], [Action::Report(_), Action::RecheckWork]));
    let (s, actions) = step(s, Event::Rechecked(Some(work(8))));
    assert!(matches!(actions[..], [Action::StopSearch]));
    assert!(matches!(s.phase, Phase::Idle));
}

#[test]
fn stopping_stops_the_search() {
    let e = Event::Tick { stop: true, winner: Winner::Nonce(1), now: 9 * SECOND, share: None, hash_count: 0 };
    let (s, actions) = step(searching(true, 0), e);
    assert!(matches!(actions[..], [Action::StopSearch]));
    assert!(s.is_finished());
}

#[test]
fn lost_threads_end_the_session() {
    let e = Event::Tick { stop: false, winner: Winner::Gone, now: 0, share: None, hash_count: 0 };
    let (s, actions) = step(searching(false, 0), e);
    assert_eq!(actions.len(), 1);
    assert_eq!(message(&actions[0]), ("Mining threads stopped unexpectedly", "critical", true));
    assert!(s.is_finished());
}

#[test]
fn blocks_go_to_the_mother_canister_or_the_pool() {
    let (_, actions) = found(false);
    assert!(matches!(actions[..], [Action::StopSearch, Action::SubmitProof { nonce: 4409 }]));
    let (_, actions) = found(true);
    assert!(matches!(actions[..], [Action::StopSearch, Action::SubmitShare { height: 7, nonce: 4409 }]));
}

#[test]
fn answers_to_a_block_are_reported() {
    let won = SubmitOk { hash: vec![], height: n(8), reward: n(4_950_000_000) };
    let (s, actions) = step(found(false).0, Event::ProofAnswered(Ok(Ok(won))));
    assert_eq!(message(&actions[0]), ("Block #8 won -- +49.5 PIKO", "good", false));
    assert_eq!(s.session_blocks, 1);
    assert!(matches!(&actions[0], Action::Emit(p) if p.session_blocks == 1 && p.hashrate == 0));

    let (s, actions) = step(found(false).0, Event::ProofAnswered(Ok(Err(SubmitError::StaleWork))));
    assert_eq!(message(&actions[0]), ("Not accepted: StaleWork -- still mining", "", false));
    assert!(matches!(s.phase, Phase::Idle));
    assert_eq!(s.session_blocks, 0);

    let (_, actions) = step(found(false).0, Event::ProofAnswered(Err("submitProof call failed".to_string())));
    assert_eq!(
        message(&actions[0]),
        ("Submission failed: submitProof call failed -- still mining", "", false)
    );
}

#[test]
fn a_fee_that_cannot_be_paid_ends_the_session() {
    for why in [
        TransferFromError::InsufficientAllowance { allowance: n(0) },
        TransferFromError::InsufficientFunds { balance: n(0) },
    ] {
        let answer = Ok(Err(SubmitError::IcpFeeFailed(why)));
        let (s, actions) = step(found(false).0, Event::ProofAnswered(answer));
        assert!(matches!(actions[0], Action::SetStop));
        assert_eq!(
            message(&actions[1]),
            (
                "Mining stopped: insufficient ICP allowance/balance -- approve more ICP to keep mining.",
                "critical",
                true
            )
        );
        assert!(s.is_finished());
    }
    let answer = Ok(Err(SubmitError::IcpFeeFailed(TransferFromError::TooOld)));
    let (s, actions) = step(found(false).0, Event::ProofAnswered(answer));
    assert_eq!(message(&actions[0]), ("Not accepted: IcpFeeFailed(TooOld) -- still mining", "", false));
    assert!(!s.is_finished());
}

#[test]
fn answers_of_the_pool_are_reported() {
    let outcome = |winner: bool, result| ShareOutcome { accepted: true, isBlockWinner: winner, poolSubmitResult: result };
    let ok = || SubmitOk { hash: vec![], height: n(8), reward: n(1) };
    for (answer, text, kind, blocks) in [
        (
            Ok(Ok(outcome(true, Some(Ok(ok()))))),
            "Pool won block #8! Reward split is credited by the pool -- claim it from there.",
            "good",
            1,
        ),
        (Ok(Ok(outcome(true, None))), "Pool found a winning share -- reward pending", "good", 1),
        (
            Ok(Ok(outcome(true, Some(Err(SubmitError::StaleWork))))),
            "Pool found a winning share -- reward pending",
            "good",
            1,
        ),
        (Ok(Ok(outcome(false, Some(Ok(ok()))))), "Share accepted by the pool", "", 0),
        (
            Ok(Err(ShareError::DuplicateNonce)),
            "Share not accepted: DuplicateNonce -- still mining",
            "",
            0,
        ),
        (Err("no answer".to_string()), "Share submission failed: no answer -- still mining", "", 0),
    ] {
        let (s, actions) = step(found(true).0, Event::ShareAnswered(answer));
        assert_eq!(actions.len(), 1);
        assert_eq!(message(&actions[0]), (text, kind, false));
        assert_eq!(s.session_blocks, blocks);
        assert!(matches!(s.phase, Phase::Idle));
    }
}

#[test]
fn only_the_expected_event_is_accepted() {
    let s = Supervisor::new();
    assert!(!s.accepts(&tick(0, None, 0)));
    assert!(!s.accepts(&Event::Started { now: 0 }));
    assert!(!s.accepts(&got_balance(None)));
    let s = fetching_work();
    assert!(!s.accepts(&Event::Begin { stop: false }));
    assert!(!s.accepts(&Event::ShareAnswered(Err(String::new()))));
}

#[test]
fn messages_say_whether_mining_goes_on() {
    let p = emit_progress(5, 6, 7, "text", "good");
    assert_eq!((p.hashrate, p.session_attempts, p.session_blocks), (5, 6, 7));
    assert_eq!((p.message.as_str(), p.message_kind.as_str(), p.stopped), ("text", "good", false));
    let p = emit_stopped(6, 7, "text");
    assert_eq!((p.hashrate, p.session_attempts, p.session_blocks), (0, 6, 7));
    assert_eq!((p.message.as_str(), p.message_kind.as_str(), p.stopped), ("text", "critical", true));
}

fn stats() -> Stats {
    Stats {
        height: n(250_000_000),
        difficultyBits: n(31),
        blocksUntilRetarget: n(12),
        retargetIntervalBlocks: n(144),
        lastRetargetAt: Integer { negative: false, magnitude: n(1_700_000_000_000_000_000) },
        targetBlockTimeNanos: n(600 * SECOND),
        nextHalvingHeight: huge(),
        currentReward: n(5_000_000_000),
        miningFeeE8s: n(90_000),
    }
}

fn block(at: Integer) -> Block {
    Block {
        hash: vec![0; 32],
        height: n(1),
        miner: Principal { bytes: vec![4] },
        reward: n(1),
        timestamp: at,
    }
}

#[test]
fn network_statistics_are_shown() {
    let shown = network_stats(&stats(), &None);
    assert_eq!(shown.height, "250000000");
    assert_eq!(shown.difficulty_bits, 31);
    assert_eq!(shown.blocks_until_retarget, 12);
    assert_eq!(shown.retarget_interval_blocks, 144);
    assert_eq!(shown.last_retarget_at_nanos, 1_700_000_000_000_000_000);
    assert_eq!(shown.target_block_time_nanos, 600_000_000_000);
    assert_eq!(shown.next_halving_height, "340282366920938463463374607431768211456");
    assert_eq!(shown.current_reward, "5000000000");
    assert_eq!(shown.mining_fee_e8s, "90000");
    assert_eq!(shown.last_block_at_nanos, None);
}

#[test]
fn statistics_that_do_not_fit_count_as_zero() {
    let odd = Stats {
        difficultyBits: n(1 << 32),
        blocksUntilRetarget: huge(),
        retargetIntervalBlocks: huge(),
        lastRetargetAt: Integer { negative: true, magnitude: huge() },
        targetBlockTimeNanos: n(1 << 63),
        ..stats()
    };
    let shown = network_stats(&odd, &Some(vec![]));
    assert_eq!(shown.difficulty_bits, 0);
    assert_eq!(shown.blocks_until_retarget, 0);
    assert_eq!(shown.retarget_interval_blocks, 0);
    assert_eq!(shown.last_retarget_at_nanos, 0);
    assert_eq!(shown.target_block_time_nanos, 0);
    assert_eq!(shown.last_block_at_nanos, None);
}

#[test]
fn the_last_block_is_the_newest() {
    let at = |negative: bool, nanos: u64| block(Integer { negative, magnitude: n(nanos) });
    let shown = network_stats(&stats(), &Some(vec![at(false, 9), at(true, 5)]));
    assert_eq!(shown.last_block_at_nanos, Some(-5));
    let too_late = block(Integer { negative: false, magnitude: huge() });
    let shown = network_stats(&stats(), &Some(vec![at(false, 9), too_late]));
    assert_eq!(shown.last_block_at_nanos, None);
}

#[test]
fn pool_figures_are_shown() {
    let share = MyShare { sharesThisRound: n(1000), pendingReward: n(250_000_000) };
    assert_eq!(pool_share_texts(&share), ("1000".to_string(), "250000000".to_string()));
    let stats = PoolStats {
        blocksWon: n(1),
        totalSharesAllTime: n(2),
        totalPikoDistributed: n(3),
        currentRoundTotalShares: n(4000),
        activeMinersThisRound: n(50),
        activeMinersNow: n(6),
    };
    assert_eq!(
        pool_stats_texts(&stats),
        ("4000".to_string(), "50".to_string(), "6".to_string())
    );
}
