//! What holds of every mining session.

use super::model::{
    due_actions, expects, has_room, hash_of_its_bytes, heartbeat_due, latest_share, new_search, report_due,
    send_latest, share_due, since, stale_due, step, ticked, u64_or_zero, unpaid_text, ActionView,
    EventView, PhaseView, ProgressView, Search, SupervisorView, Winner, WorkView,
    HEARTBEAT_INTERVAL_NANOS, SHARE_INTERVAL_NANOS,
};
use crate::miner::MiningJob;
use crate::wallet::affordable;
use vstd::prelude::*;

verus! {

/// What is due at one look at a search that has found nothing.
proof fn due_actions_contents(
    s: SupervisorView,
    search: Search,
    now: u64,
    share: Option<u64>,
    hash_count: u64,
    a: ActionView,
)
    requires
        due_actions(s, search, now, share, hash_count).contains(a),
    ensures
        a is SendShare || a is Report || a is Heartbeat || a is RecheckWork || a is Sleep,
        a is SendShare ==> share_due(search, now, share),
        a is Heartbeat ==> heartbeat_due(search, now),
{
}

/// What can come of one look at a search.
proof fn look_actions(s: SupervisorView, e: EventView, a: ActionView)
    requires
        expects(s, e),
        step(s, e).1.contains(a),
    ensures
        e matches EventView::Tick { stop, winner, now, share, .. } ==> (!stop
            && winner is NoneYet ==> {
            &&& a is SendShare || a is Report || a is Heartbeat || a is RecheckWork || a is Sleep
            &&& a is SendShare ==> share_due(s.search()->0, now, share)
            &&& a is Heartbeat ==> heartbeat_due(s.search()->0, now)
        }),
{
    if let EventView::Tick { stop, winner, now, share, hash_count } = e {
        if !stop && winner is NoneYet {
            due_actions_contents(s, s.search()->0, now, share, hash_count, a);
        }
    }
}

/// A share or a sign of life that is due is among what is done.
proof fn due_actions_complete(
    s: SupervisorView,
    search: Search,
    now: u64,
    share: Option<u64>,
    hash_count: u64,
)
    ensures
        share_due(search, now, share) ==> due_actions(s, search, now, share, hash_count).contains(
            send_latest(search, share),
        ),
        heartbeat_due(search, now) ==> due_actions(s, search, now, share, hash_count).contains(
            ActionView::Heartbeat,
        ),
{
    let all = due_actions(s, search, now, share, hash_count);
    if share_due(search, now, share) {
        assert(all[0] == send_latest(search, share));
    }
    if heartbeat_due(search, now) {
        assert(all[all.len() - 2] == ActionView::Heartbeat);
    }
}

/// A block found for the pool goes to the pool and never past it; one found without a
/// pool goes straight to the mother canister. In either case the search is stopped first.
pub proof fn blocks_go_where_they_belong(s: SupervisorView, e: EventView, a: ActionView)
    requires
        expects(s, e),
        step(s, e).1.contains(a),
    ensures
        a is SubmitProof ==> {
            &&& s.search() matches Some(search) && !search.job.pooled()
            &&& step(s, e).1[0] is StopSearch
        },
        a is SubmitShare ==> {
            &&& s.search() matches Some(search) && search.job.pooled() && a->SubmitShare_height
                == search.job.height
            &&& step(s, e).1[0] is StopSearch
        },
        a is SendShare ==> (s.search() matches Some(search) && search.job.pooled()),
        a is Heartbeat ==> (s.search() matches Some(search) && search.job.pooled()),
{
    look_actions(s, e, a);
}

/// No time is spent on a search that could not be paid for: one is started only when
/// both the allowance and the balance cover what a block costs, and only for the work
/// and the share target that the allowance was asked for. It is started on a graphics
/// device exactly if that is wanted at that time.
pub proof fn searches_are_paid_for(s: SupervisorView, e: EventView, job: MiningJob, gpu: bool)
    requires
        expects(s, e),
        step(s, e).1.contains(ActionView::StartSearch { job, gpu }),
    ensures
        s.phase matches PhaseView::FetchingBalance(offer, share_bits, allowance) && {
            &&& e matches EventView::GotBalance { balance: Some(balance), gpu_requested }
                && affordable(allowance, balance, offer.fee) && gpu == gpu_requested
            &&& job.share_difficulty_bits == share_bits
            &&& job.height == offer.height
            &&& job.difficulty_bits == offer.difficulty_bits
            &&& job.previous_hash@ == offer.previous_hash
        },
{
    look_actions(s, e, ActionView::StartSearch { job, gpu });
    if let PhaseView::FetchingBalance(offer, _, _) = s.phase {
        if offer.previous_hash.len() == 32 {
            hash_of_its_bytes(offer.previous_hash);
        }
    }
}

/// The pool is asked what it may spend exactly in a round that is mined for the pool,
/// and a round is mined for the pool only if that was wanted and the pool has said
/// how it wants its shares.
pub proof fn the_right_spender_is_asked(s: SupervisorView, e: EventView, pool: bool)
    requires
        expects(s, e),
        step(s, e).1.contains(ActionView::FetchAllowance { pool }),
    ensures
        step(s, e).0.phase matches PhaseView::FetchingAllowance(_, share_bits) && pool
            == share_bits is Some,
        pool ==> s.phase is FetchingPoolConfig && (e matches EventView::GotPoolConfig(Ok(_))),
{
    look_actions(s, e, ActionView::FetchAllowance { pool });
}

/// A search that is started is for the spender whose allowance was asked for: one for
/// the pool where the pool was asked about, one without it where the mother canister was.
pub proof fn searches_are_for_the_spender_asked(
    s: SupervisorView,
    e: EventView,
    pool: bool,
    allowance: Option<nat>,
    balance: Option<nat>,
    gpu_requested: bool,
    job: MiningJob,
    gpu: bool,
)
    requires
        expects(s, e),
        step(s, e).1.contains(ActionView::FetchAllowance { pool }),
        ({
            let asked = step(step(s, e).0, EventView::GotAllowance(allowance)).0;
            let answer = EventView::GotBalance { balance, gpu_requested };
            step(asked, answer).1.contains(ActionView::StartSearch { job, gpu })
        }),
    ensures
        job.pooled() == pool,
        affordable(
            allowance->0,
            balance->0,
            (step(s, e).0.phase->FetchingAllowance_0).fee,
        ),
        allowance is Some && balance is Some,
{
    the_right_spender_is_asked(s, e, pool);
    let asked = step(step(s, e).0, EventView::GotAllowance(allowance)).0;
    searches_are_paid_for(asked, EventView::GotBalance { balance, gpu_requested }, job, gpu);
}

/// The user interface can tell from a message whether mining has stopped: the message
/// says so exactly if the session is over. The flag that stops mining is raised with
/// it where the session ends for want of money.
pub proof fn stopping_is_announced(s: SupervisorView, e: EventView, progress: ProgressView)
    requires
        expects(s, e),
        step(s, e).1.contains(ActionView::Emit(progress)),
    ensures
        progress.stopped <==> step(s, e).0.phase is Finished,
        progress.stopped ==> progress.hashrate == 0 && progress.message_kind == "critical"@,
        progress.stopped ==> {
            ||| step(s, e).1.contains(ActionView::SetStop) && exists|pool: bool|
                progress.message == #[trigger] unpaid_text(pool)
            ||| progress.message == "Mining threads stopped unexpectedly"@
        },
        step(s, e).1.contains(ActionView::SetStop) ==> progress.stopped,
{
    let actions = step(s, e).1;
    look_actions(s, e, ActionView::Emit(progress));
    if progress.stopped && !(e is Tick) {
        assert(actions[0] is SetStop);
        assert(actions.contains(actions[0]));
    }
}

/// A session that ends by itself, and not because the flag that stops mining is up,
/// says so with the last thing that it does.
pub proof fn an_end_is_announced(s: SupervisorView, e: EventView)
    requires
        expects(s, e),
        step(s, e).0.phase is Finished,
        !(e matches EventView::Begin { stop } && stop),
        !(e matches EventView::Tick { stop, .. } && stop),
    ensures
        step(s, e).1.len() > 0,
        step(s, e).1.last() matches ActionView::Emit(progress) && progress.stopped,
{
}

/// The flag that stops mining ends the session at the next round or the next look at
/// the search, and a session that is over takes no further event.
pub proof fn stop_is_obeyed(s: SupervisorView, e: EventView)
    requires
        expects(s, e),
    ensures
        e matches EventView::Begin { stop } && stop ==> step(s, e).0.phase is Finished,
        e matches EventView::Tick { stop, .. } && stop ==> {
            &&& step(s, e).0.phase is Finished
            &&& step(s, e).1 == seq![ActionView::StopSearch]
        },
        !(s.phase is Finished),
{
}

/// A look at the chain that brings no answer, or the height that is worked on, leaves
/// the search alone; any other height ends it.
pub proof fn only_a_new_height_ends_a_search(s: SupervisorView, search: Search, height: Option<nat>)
    requires
        s.phase == PhaseView::CheckingWork(search),
    ensures
        ({
            let after = step(s, EventView::Rechecked(height));
            let moved_on = height matches Some(h) && u64_or_zero(h) != search.job.height;
            &&& !moved_on ==> after.0 == s.at(PhaseView::Searching(search))
            &&& moved_on ==> after.0 == s.at(PhaseView::Idle) && after.1
                == seq![ActionView::StopSearch]
        }),
{
}

/// Without the pool's share target a round is mined without the pool.
pub proof fn pool_failure_falls_back_to_solo(s: SupervisorView, why: Seq<char>)
    requires
        s.phase is FetchingPoolConfig,
    ensures
        ({
            let after = step(s, EventView::GotPoolConfig(Err(why)));
            &&& after.0.phase matches PhaseView::FetchingAllowance(offer, bits) && bits is None
                && s.phase == PhaseView::FetchingPoolConfig(offer)
            &&& after.1.last() == ActionView::FetchAllowance { pool: false }
        }),
{
}

/// A session after a series of events, each of which it waits for.
pub open spec fn run(s: SupervisorView, events: Seq<EventView>) -> SupervisorView
    decreases events.len(),
{
    if events.len() == 0 {
        s
    } else {
        step(run(s, events.drop_last()), events.last()).0
    }
}

/// Whether a session waits for each event of a series in its turn, and its counts can
/// take them.
pub open spec fn is_run(s: SupervisorView, events: Seq<EventView>) -> bool
    decreases events.len(),
{
    events.len() > 0 ==> {
        let before = run(s, events.drop_last());
        &&& is_run(s, events.drop_last())
        &&& expects(before, events.last())
        &&& has_room(before, events.last())
    }
}

/// Whether an answer says that a block was won.
pub open spec fn is_win(e: EventView) -> bool {
    match e {
        EventView::ProofAnswered(answer) => answer is Won,
        EventView::ShareAnswered(answer) => answer is BlockWon || answer is WinPending,
        _ => false,
    }
}

/// The answers of a series that say that a block was won.
pub open spec fn wins(events: Seq<EventView>) -> nat
    decreases events.len(),
{
    if events.len() == 0 {
        0
    } else {
        wins(events.drop_last()) + if is_win(events.last()) {
            1nat
        } else {
            0
        }
    }
}

/// The blocks of a session are those that it was told it has won, no more and no
/// fewer, and its attempts never go down.
pub proof fn blocks_are_counted(s: SupervisorView, events: Seq<EventView>)
    requires
        is_run(s, events),
    ensures
        run(s, events).session_blocks == s.session_blocks + wins(events),
        run(s, events).session_attempts >= s.session_attempts,
    decreases events.len(),
{
    if events.len() > 0 {
        blocks_are_counted(s, events.drop_last());
    }
}

/// What a message to the user interface says of a session.
pub struct Message {
    pub attempts: u64,
    pub blocks: u64,
    pub kind: Seq<char>,
    pub stopped: bool,
}

/// The message that an action sends to the user interface, if it sends one. A report of
/// the hash rate is a message without a text.
pub open spec fn message_of(a: ActionView) -> Option<Message> {
    match a {
        ActionView::Emit(progress) => Some(
            Message {
                attempts: progress.session_attempts,
                blocks: progress.session_blocks,
                kind: progress.message_kind,
                stopped: progress.stopped,
            },
        ),
        ActionView::Report(report) => Some(
            Message {
                attempts: report.session_attempts,
                blocks: report.session_blocks,
                kind: ""@,
                stopped: false,
            },
        ),
        _ => None,
    }
}

/// The messages that a series of actions sends to the user interface.
pub open spec fn messages_of(actions: Seq<ActionView>) -> Seq<Message>
    decreases actions.len(),
{
    if actions.len() == 0 {
        seq![]
    } else {
        let earlier = messages_of(actions.drop_last());
        match message_of(actions.last()) {
            Some(message) => earlier.push(message),
            None => earlier,
        }
    }
}

/// The messages that a session sends to the user interface in a series of events.
pub open spec fn messages(s: SupervisorView, events: Seq<EventView>) -> Seq<Message>
    decreases events.len(),
{
    if events.len() == 0 {
        seq![]
    } else {
        messages(s, events.drop_last()) + messages_of(
            step(run(s, events.drop_last()), events.last()).1,
        )
    }
}

/// Actions of which none sends a message send no message.
proof fn no_messages(actions: Seq<ActionView>)
    requires
        forall|i: int| 0 <= i < actions.len() ==> message_of(#[trigger] actions[i]) is None,
    ensures
        messages_of(actions) == Seq::<Message>::empty(),
    decreases actions.len(),
{
    if actions.len() > 0 {
        no_messages(actions.drop_last());
    }
}

/// Actions of which only the one at `k` sends a message send that message.
proof fn one_message(actions: Seq<ActionView>, k: int)
    requires
        0 <= k < actions.len(),
        message_of(actions[k]) is Some,
        forall|i: int|
            0 <= i < actions.len() && i != k ==> message_of(#[trigger] actions[i]) is None,
    ensures
        messages_of(actions) == seq![message_of(actions[k])->0],
    decreases actions.len(),
{
    let front = actions.drop_last();
    if k == actions.len() - 1 {
        no_messages(front);
        assert(Seq::<Message>::empty().push(message_of(actions[k])->0) =~= seq![
            message_of(actions[k])->0,
        ]);
    } else {
        one_message(front, k);
    }
}

/// An event makes a session send one message at most, which shows its counts as they
/// are then. They change only where a message is sent, and the blocks by one at most.
proof fn messages_of_a_step(s: SupervisorView, e: EventView)
    requires
        expects(s, e),
        has_room(s, e),
    ensures
        ({
            let (after, actions) = step(s, e);
            let sent = messages_of(actions);
            &&& sent.len() <= 1
            &&& sent.len() == 0 ==> after.session_attempts == s.session_attempts
                && after.session_blocks == s.session_blocks
            &&& sent.len() == 1 ==> {
                &&& sent[0].attempts == after.session_attempts
                &&& sent[0].blocks == after.session_blocks
                &&& sent[0].stopped ==> after.phase is Finished
                &&& has_a_kind(sent[0])
            }
            &&& s.session_attempts <= after.session_attempts
            &&& s.session_blocks <= after.session_blocks <= s.session_blocks + 1
        }),
{
    let actions = step(s, e).1;
    let quiet = e matches EventView::Tick { stop, winner, .. } && !stop && winner is NoneYet;
    if quiet {
        if let EventView::Tick { now, share, hash_count, .. } = e {
            let search = s.search()->0;
            let k: int = if share_due(search, now, share) {
                1
            } else {
                0
            };
            if report_due(search, now) {
                one_message(actions, k);
            } else {
                no_messages(actions);
            }
        }
    } else if exists|i: int| 0 <= i < actions.len() && message_of(#[trigger] actions[i]) is Some {
        let k = choose|i: int|
            0 <= i < actions.len() && message_of(#[trigger] actions[i]) is Some;
        one_message(actions, k);
    } else {
        no_messages(actions);
    }
}

/// Whether a message is of one of the three kinds that there are.
pub open spec fn has_a_kind(message: Message) -> bool {
    message.kind == "good"@ || message.kind == "critical"@ || message.kind == ""@
}

/// Whether messages are in order: of two that follow each other, the later one shows no
/// fewer attempts, and as many blocks or one more. Only the last one can say that mining
/// has stopped.
pub open spec fn in_order(sent: Seq<Message>) -> bool {
    &&& forall|i: int|
        0 < i < sent.len() ==> {
            let (earlier, later) = (sent[i - 1], #[trigger] sent[i]);
            &&& earlier.attempts <= later.attempts
            &&& earlier.blocks <= later.blocks <= earlier.blocks + 1
            &&& !earlier.stopped
        }
    &&& forall|i: int| 0 <= i < sent.len() ==> has_a_kind(#[trigger] sent[i])
}

/// Messages in order stay so with one more that follows the last of them.
proof fn one_more_message(before: Seq<Message>, new: Seq<Message>)
    requires
        in_order(before),
        new.len() <= 1,
        new.len() == 1 ==> has_a_kind(new[0]),
        new.len() == 1 && before.len() > 0 ==> {
            &&& before.last().attempts <= new[0].attempts
            &&& before.last().blocks <= new[0].blocks <= before.last().blocks + 1
            &&& !before.last().stopped
        },
    ensures
        in_order(before + new),
{
    let sent = before + new;
    assert forall|i: int| 0 < i < sent.len() implies {
        let (earlier, later) = (sent[i - 1], #[trigger] sent[i]);
        &&& earlier.attempts <= later.attempts
        &&& earlier.blocks <= later.blocks <= earlier.blocks + 1
        &&& !earlier.stopped
    } by {
        if i < before.len() {
            assert(sent[i] == before[i] && sent[i - 1] == before[i - 1]);
        } else {
            assert(sent[i] == new[0] && sent[i - 1] == before.last());
        }
    }
    assert forall|i: int| 0 <= i < sent.len() implies has_a_kind(#[trigger] sent[i]) by {
        if i < before.len() {
            assert(sent[i] == before[i]);
        } else {
            assert(sent[i] == new[0]);
        }
    }
}

/// Of two messages of a session that follow each other, the later one shows no fewer
/// attempts, and as many blocks or one more. Only the last message of a session can say
/// that mining has stopped. A message is of one of three kinds: "good", "critical" or "".
#[verifier::spinoff_prover]
pub proof fn messages_follow_each_other(s: SupervisorView, events: Seq<EventView>)
    requires
        is_run(s, events),
    ensures
        ({
            let sent = messages(s, events);
            &&& in_order(sent)
            &&& sent.len() > 0 ==> {
                &&& sent.last().attempts == run(s, events).session_attempts
                &&& sent.last().blocks == run(s, events).session_blocks
                &&& sent.last().stopped ==> run(s, events).phase is Finished
            }
        }),
    decreases events.len(),
{
    if events.len() > 0 {
        let front = events.drop_last();
        messages_follow_each_other(s, front);
        messages_of_a_step(run(s, front), events.last());
        let before = messages(s, front);
        let new = messages_of(step(run(s, front), events.last()).1);
        one_more_message(before, new);
        if new.len() == 0 {
            assert(before + new =~= before);
        } else {
            assert((before + new).last() == new[0]);
        }
    }
}

/// Whether a search is running before, between and after all events of a series.
pub open spec fn is_search_run(s: SupervisorView, events: Seq<EventView>) -> bool {
    &&& is_run(s, events)
    &&& forall|k: int|
        0 <= k <= events.len() ==> (#[trigger] run(s, events.take(k))).search() is Some
}

/// The times of the looks at a search at which a share was sent.
pub open spec fn share_times(s: SupervisorView, events: Seq<EventView>) -> Seq<u64>
    decreases events.len(),
{
    if events.len() == 0 {
        seq![]
    } else {
        let earlier = share_times(s, events.drop_last());
        let before = run(s, events.drop_last());
        match events.last() {
            EventView::Tick { now, .. } => if exists|a: ActionView|
                step(before, events.last()).1.contains(a) && #[trigger] is_send(a) {
                earlier.push(now)
            } else {
                earlier
            },
            _ => earlier,
        }
    }
}

/// Whether an action sends a share.
pub open spec fn is_send(a: ActionView) -> bool {
    a is SendShare
}

/// The times of the looks at a search at which a sign of life was sent.
pub open spec fn heartbeat_times(s: SupervisorView, events: Seq<EventView>) -> Seq<u64>
    decreases events.len(),
{
    if events.len() == 0 {
        seq![]
    } else {
        let earlier = heartbeat_times(s, events.drop_last());
        let before = run(s, events.drop_last());
        match events.last() {
            EventView::Tick { now, .. } => if step(before, events.last()).1.contains(
                ActionView::Heartbeat,
            ) {
                earlier.push(now)
            } else {
                earlier
            },
            _ => earlier,
        }
    }
}

/// The parts of a run that keeps a search running are such runs.
proof fn search_run_prefix(s: SupervisorView, events: Seq<EventView>)
    requires
        is_search_run(s, events),
        events.len() > 0,
    ensures
        is_search_run(s, events.drop_last()),
        run(s, events.drop_last()).search() is Some,
        run(s, events).search() is Some,
{
    let front = events.drop_last();
    assert(events.take(events.len() - 1) =~= front);
    assert(events.take(events.len() as int) =~= events);
    assert forall|k: int| 0 <= k <= front.len() implies (#[trigger] run(
        s,
        front.take(k),
    )).search() is Some by {
        assert(front.take(k) =~= events.take(k));
    }
    assert(run(s, events.take(events.len() - 1)).search() is Some);
    assert(run(s, events.take(events.len() as int)).search() is Some);
}

/// What one look at a search does to its notes.
proof fn tick_notes(before: SupervisorView, e: EventView)
    requires
        expects(before, e),
        before.search() is Some,
        step(before, e).0.search() is Some,
    ensures
        ({
            let search = before.search()->0;
            let after = step(before, e).0.search()->0;
            &&& after.job == search.job
            &&& e matches EventView::Tick { now, share, hash_count, .. } ==> {
                &&& after == ticked(search, now, share, hash_count)
                &&& step(before, e).1.contains(ActionView::Heartbeat) <==> heartbeat_due(
                    search,
                    now,
                )
                &&& (exists|a: ActionView|
                    step(before, e).1.contains(a) && #[trigger] is_send(a)) <==> share_due(
                    search,
                    now,
                    share,
                )
            }
            &&& !(e is Tick) ==> after == search
        }),
{
    if let EventView::Tick { stop, winner, now, share, hash_count } = e {
        let search = before.search()->0;
        let actions = step(before, e).1;
        assert(actions == due_actions(before, search, now, share, hash_count));
        due_actions_complete(before, search, now, share, hash_count);
        if share_due(search, now, share) {
            assert(is_send(send_latest(search, share)));
        } else {
            assert forall|a: ActionView| actions.contains(a) implies !#[trigger] is_send(a) by {
                due_actions_contents(before, search, now, share, hash_count, a);
            }
        }
        if !heartbeat_due(search, now) && actions.contains(ActionView::Heartbeat) {
            due_actions_contents(before, search, now, share, hash_count, ActionView::Heartbeat);
        }
    }
}

/// Shares are sent to the pool at least 350 milliseconds apart, as long as one search
/// is running.
pub proof fn shares_are_spaced(s: SupervisorView, events: Seq<EventView>)
    requires
        is_search_run(s, events),
    ensures
        ({
            let times = share_times(s, events);
            &&& forall|i: int|
                0 < i < times.len() ==> #[trigger] times[i] >= times[i - 1] + SHARE_INTERVAL_NANOS
            &&& times.len() > 0 ==> run(s, events).search()->0.last_share_sent == times.last()
        }),
    decreases events.len(),
{
    if events.len() > 0 {
        let front = events.drop_last();
        let before = run(s, front);
        search_run_prefix(s, events);
        shares_are_spaced(s, front);
        tick_notes(before, events.last());
        let earlier = share_times(s, front);
        let times = share_times(s, events);
        assert forall|i: int| 0 < i < times.len() implies #[trigger] times[i] >= times[i - 1]
            + SHARE_INTERVAL_NANOS by {
            if i < earlier.len() {
                assert(times[i] == earlier[i]);
                assert(times[i - 1] == earlier[i - 1]);
            }
        }
    } else {
        assert(events.take(0) =~= events);
    }
}

/// Signs of life are sent to the pool at least 20 seconds apart, as long as one search
/// is running.
pub proof fn heartbeats_are_spaced(s: SupervisorView, events: Seq<EventView>)
    requires
        is_search_run(s, events),
    ensures
        ({
            let times = heartbeat_times(s, events);
            &&& forall|i: int|
                0 < i < times.len() ==> #[trigger] times[i] >= times[i - 1]
                    + HEARTBEAT_INTERVAL_NANOS
            &&& times.len() > 0 ==> run(s, events).search()->0.last_heartbeat == times.last()
        }),
    decreases events.len(),
{
    if events.len() > 0 {
        let front = events.drop_last();
        let before = run(s, front);
        search_run_prefix(s, events);
        heartbeats_are_spaced(s, front);
        tick_notes(before, events.last());
        let earlier = heartbeat_times(s, front);
        let times = heartbeat_times(s, events);
        assert forall|i: int| 0 < i < times.len() implies #[trigger] times[i] >= times[i - 1]
            + HEARTBEAT_INTERVAL_NANOS by {
            if i < earlier.len() {
                assert(times[i] == earlier[i]);
                assert(times[i - 1] == earlier[i - 1]);
            }
        }
    } else {
        assert(events.take(0) =~= events);
    }
}

/// No share is lost at a look at a search for the pool: the newest one that was seen
/// is sent, or it is pending because the last one was sent too short a time ago.
pub proof fn unsent_shares_are_pending(
    s: SupervisorView,
    search: Search,
    now: u64,
    share: Option<u64>,
    hash_count: u64,
)
    requires
        s.phase == PhaseView::Searching(search),
        search.job.pooled(),
    ensures
        ({
            let e = EventView::Tick {
                stop: false,
                winner: Winner::NoneYet,
                now,
                share,
                hash_count,
            };
            let (after, actions) = step(s, e);
            let early = since(now, search.last_share_sent) < SHARE_INTERVAL_NANOS;
            &&& after.search() matches Some(next) && match latest_share(search, share) {
                Some(nonce) => if early {
                    next.pending_share == Some(nonce) && next.last_share_sent
                        == search.last_share_sent
                } else {
                    &&& next.pending_share is None
                    &&& next.last_share_sent == now
                    &&& actions.contains(
                        ActionView::SendShare { height: search.job.height, nonce },
                    )
                },
                None => next.pending_share is None,
            }
            &&& early || latest_share(search, share) is None ==> forall|a: ActionView|
                actions.contains(a) ==> !#[trigger] is_send(a)
        }),
{
    let e = EventView::Tick { stop: false, winner: Winner::NoneYet, now, share, hash_count };
    due_actions_complete(s, search, now, share, hash_count);
    tick_notes(s, e);
}

/// The newest share after a series of events: the one that came last, or else `first`.
pub open spec fn newest_share(first: Option<u64>, events: Seq<EventView>) -> Option<u64>
    decreases events.len(),
{
    if events.len() == 0 {
        first
    } else {
        match events.last() {
            EventView::Tick { share: Some(nonce), .. } => Some(nonce),
            _ => newest_share(first, events.drop_last()),
        }
    }
}

/// Whether all looks of a series come too early to send a share, when the last one was
/// sent at `sent`.
pub open spec fn all_early(sent: i128, events: Seq<EventView>) -> bool {
    forall|i: int|
        0 <= i < events.len() ==> (#[trigger] events[i] matches EventView::Tick { now, .. }
            ==> since(now, sent) < SHARE_INTERVAL_NANOS)
}

/// While all looks come too early, the newest share is kept.
proof fn newest_share_is_kept(s: SupervisorView, events: Seq<EventView>)
    requires
        is_search_run(s, events),
        all_early(s.search()->0.last_share_sent, events),
    ensures
        ({
            let search = run(s, events).search()->0;
            &&& search.pending_share == newest_share(s.search()->0.pending_share, events)
            &&& search.last_share_sent == s.search()->0.last_share_sent
            &&& search.job == s.search()->0.job
        }),
    decreases events.len(),
{
    if events.len() > 0 {
        let front = events.drop_last();
        search_run_prefix(s, events);
        assert forall|i: int| 0 <= i < front.len() implies (
        #[trigger] front[i] matches EventView::Tick { now, .. } ==> since(
            now,
            s.search()->0.last_share_sent,
        ) < SHARE_INTERVAL_NANOS) by {
            assert(front[i] == events[i]);
        }
        newest_share_is_kept(s, front);
        tick_notes(run(s, front), events.last());
        assert(events[events.len() - 1] == events.last());
    }
}

/// A share that comes too early is sent later: the first look at a search for the pool
/// that comes 350 milliseconds or more after the last share was sent sends the newest
/// share that was seen by then, be it one that was pending or a newer one.
pub proof fn pending_shares_are_sent(
    s: SupervisorView,
    events: Seq<EventView>,
    now: u64,
    share: Option<u64>,
    hash_count: u64,
)
    requires
        is_search_run(s, events),
        s.search()->0.job.pooled(),
        all_early(s.search()->0.last_share_sent, events),
        run(s, events).phase is Searching,
        since(now, s.search()->0.last_share_sent) >= SHARE_INTERVAL_NANOS,
    ensures
        ({
            let first = s.search()->0;
            let e = EventView::Tick {
                stop: false,
                winner: Winner::NoneYet,
                now,
                share,
                hash_count,
            };
            let newest = if share is Some {
                share
            } else {
                newest_share(first.pending_share, events)
            };
            newest matches Some(nonce) ==> step(run(s, events), e).1.contains(
                ActionView::SendShare { height: first.job.height, nonce },
            )
        }),
{
    newest_share_is_kept(s, events);
    let before = run(s, events);
    unsent_shares_are_pending(before, before.search()->0, now, share, hash_count);
}

/// A running search keeps its job, and with it whether it is for the pool: whatever the
/// user switches meanwhile counts for the next search.
pub proof fn a_search_keeps_its_job(s: SupervisorView, events: Seq<EventView>)
    requires
        is_search_run(s, events),
    ensures
        run(s, events).search()->0.job == s.search()->0.job,
    decreases events.len(),
{
    if events.len() > 0 {
        search_run_prefix(s, events);
        a_search_keeps_its_job(s, events.drop_last());
        tick_notes(run(s, events.drop_last()), events.last());
    }
}

/// A block that a search finds goes to the pool exactly if the search is for the pool,
/// however long it has been running and whatever the user has switched meanwhile.
pub proof fn a_winner_goes_by_the_job_it_was_found_for(
    s: SupervisorView,
    events: Seq<EventView>,
    nonce: u64,
    now: u64,
    share: Option<u64>,
    hash_count: u64,
)
    requires
        is_search_run(s, events),
        run(s, events).phase is Searching,
    ensures
        ({
            let job = s.search()->0.job;
            let e = EventView::Tick {
                stop: false,
                winner: Winner::Nonce(nonce),
                now,
                share,
                hash_count,
            };
            step(run(s, events), e).1 == seq![
                ActionView::StopSearch,
                if job.pooled() {
                    ActionView::SubmitShare { height: job.height, nonce }
                } else {
                    ActionView::SubmitProof { nonce }
                },
            ]
        }),
{
    a_search_keeps_its_job(s, events);
}

/// The next job is asked of the pool exactly if the user wants the pool at the time at
/// which the work for it has come.
pub proof fn the_pool_is_asked_if_wanted(
    s: SupervisorView,
    work: WorkView,
    pool_requested: bool,
)
    requires
        s.phase is FetchingWork,
    ensures
        ({
            let after = step(s, EventView::GotWork { work: Ok(work), pool_requested });
            &&& pool_requested <==> after.1 == seq![ActionView::FetchPoolConfig]
            &&& pool_requested <==> after.0.phase is FetchingPoolConfig
            &&& !pool_requested <==> after.1 == seq![ActionView::FetchAllowance { pool: false }]
        }),
{
    let after = step(s, EventView::GotWork { work: Ok(work), pool_requested });
    assert(after.1[0] is FetchPoolConfig <==> pool_requested);
}

/// The first look at a search for the pool sends a sign of life, and may send a share.
pub proof fn pool_hears_from_a_new_search(
    s: SupervisorView,
    job: MiningJob,
    start: u64,
    now: u64,
    share: Option<u64>,
    hash_count: u64,
)
    requires
        s.phase == PhaseView::Searching(new_search(job, start)),
        job.pooled(),
        start <= now,
    ensures
        ({
            let actions = step(
                s,
                EventView::Tick { stop: false, winner: Winner::NoneYet, now, share, hash_count },
            ).1;
            &&& actions.contains(ActionView::Heartbeat)
            &&& share matches Some(nonce) ==> actions.contains(
                ActionView::SendShare { height: job.height, nonce },
            )
        }),
{
    due_actions_complete(s, new_search(job, start), now, share, hash_count);
}

/// Nothing is left due after a look at a search: the last report is less than 400
/// milliseconds old, the last look at the chain less than 3 seconds and, for the pool,
/// the last sign of life less than 20 seconds. No share that could be sent is pending.
pub proof fn nothing_is_left_due(
    s: SupervisorView,
    search: Search,
    now: u64,
    share: Option<u64>,
    hash_count: u64,
)
    requires
        s.phase == PhaseView::Searching(search),
    ensures
        ({
            let after = step(
                s,
                EventView::Tick { stop: false, winner: Winner::NoneYet, now, share, hash_count },
            ).0.search();
            &&& after matches Some(next) && next.job == search.job && !report_due(next, now)
                && !stale_due(next, now) && !heartbeat_due(next, now) && !share_due(
                next,
                now,
                None,
            )
        }),
{
}

/// A session ends when mining cannot be paid for, be it before a search or after a
/// block: the flag that stops mining is raised, and that is announced.
pub proof fn no_money_ends_the_session(s: SupervisorView, e: EventView)
    requires
        expects(s, e),
        match (s.phase, e) {
            (
                PhaseView::FetchingBalance(offer, _, allowance),
                EventView::GotBalance { balance, .. },
            ) => match balance {
                Some(n) => !affordable(allowance, n, offer.fee),
                None => true,
            },
            (_, EventView::ProofAnswered(answer)) => answer is Unpaid,
            _ => false,
        },
    ensures
        step(s, e).0.phase is Finished,
        step(s, e).1.len() == 2,
        step(s, e).1[0] is SetStop,
        step(s, e).1[1] matches ActionView::Emit(progress) && progress.stopped,
{
}

/// The hash counts of a series of events never go down from `from` on.
pub open spec fn counts_rise(from: u64, events: Seq<EventView>) -> bool {
    forall|i: int, j: int|
        #![trigger events[i], events[j]]
        0 <= i <= j < events.len() ==> match (events[i], events[j]) {
            (
                EventView::Tick { hash_count: a, .. },
                EventView::Tick { hash_count: b, .. },
            ) => from <= a <= b,
            _ => true,
        }
}

/// The attempts that a session adds while a search is running are the hashes that the
/// search has counted by the last report: none is left out, and none counts twice.
pub proof fn attempts_are_hashes(s: SupervisorView, events: Seq<EventView>)
    requires
        is_search_run(s, events),
        counts_rise(s.search()->0.last_hash_count, events),
    ensures
        run(s, events).session_attempts - s.session_attempts == run(
            s,
            events,
        ).search()->0.last_hash_count - s.search()->0.last_hash_count,
        run(s, events).search()->0.last_hash_count >= s.search()->0.last_hash_count,
        events.len() > 0 ==> (events.last() matches EventView::Tick { hash_count, .. } ==> run(
            s,
            events,
        ).search()->0.last_hash_count <= hash_count),
    decreases events.len(),
{
    if events.len() > 0 {
        let front = events.drop_last();
        let before = run(s, front);
        let e = events.last();
        search_run_prefix(s, events);
        assert forall|i: int, j: int|
            #![trigger front[i], front[j]]
            0 <= i <= j < front.len() implies match (front[i], front[j]) {
            (
                EventView::Tick { hash_count: a, .. },
                EventView::Tick { hash_count: b, .. },
            ) => s.search()->0.last_hash_count <= a <= b,
            _ => true,
        } by {
            assert(front[i] == events[i] && front[j] == events[j]);
        }
        attempts_are_hashes(s, front);
        tick_notes(before, e);
        last_count_is_seen(s, events);
    }
}

/// The hash count noted last is that of an earlier look, or the first one.
proof fn last_count_is_seen(s: SupervisorView, events: Seq<EventView>)
    requires
        is_search_run(s, events),
        counts_rise(s.search()->0.last_hash_count, events),
        events.len() > 0,
    ensures
        events.last() matches EventView::Tick { hash_count, .. } ==> run(
            s,
            events.drop_last(),
        ).search()->0.last_hash_count <= hash_count,
{
    if let EventView::Tick { hash_count, .. } = events.last() {
        noted_count_below(s, events, (events.len() - 1) as nat, hash_count);
        assert(events.take(events.len() - 1) =~= events.drop_last());
    }
}

/// No hash count noted after `k` events is above one that comes later.
proof fn noted_count_below(s: SupervisorView, events: Seq<EventView>, k: nat, later: u64)
    requires
        is_search_run(s, events),
        counts_rise(s.search()->0.last_hash_count, events),
        k < events.len(),
        events.last() matches EventView::Tick { hash_count, .. } && hash_count == later,
    ensures
        run(s, events.take(k as int)).search()->0.last_hash_count <= later,
    decreases k,
{
    let n = events.len() - 1;
    assert(events[n] == events.last());
    if k > 0 {
        let j = (k - 1) as nat;
        noted_count_below(s, events, j, later);
        let part = events.take(k as int);
        assert(part.drop_last() =~= events.take(j as int));
        assert(part.last() == events[j as int]);
        run_of_part(s, events, k);
        assert(run(s, events.take(j as int)).search() is Some);
        assert(run(s, events.take(k as int)).search() is Some);
        tick_notes(run(s, part.drop_last()), part.last());
        if let EventView::Tick { hash_count, .. } = events[j as int] {
            assert(hash_count <= later);
        }
    } else {
        assert(events.take(0) =~= seq![]);
    }
}

/// The first events of a run are a run.
proof fn run_of_part(s: SupervisorView, events: Seq<EventView>, k: nat)
    requires
        is_run(s, events),
        k <= events.len(),
    ensures
        is_run(s, events.take(k as int)),
    decreases events.len() - k,
{
    if k < events.len() {
        run_of_part(s, events, k + 1);
        assert(events.take((k + 1) as int).drop_last() =~= events.take(k as int));
    } else {
        assert(events.take(k as int) =~= events);
    }
}

} // verus!
