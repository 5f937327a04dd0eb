//! The hash search: what is hashed, how workers share out the nonces, when a
//! worker reports and when it rests.

use crate::bytes::{be_bytes, be_value, u64_from_be, u64_to_be};
use crate::difficulty::{leading_zero_bits, leading_zeros, leading_zeros_bound};
use rand::RngCore;
use sha2::Digest;
use vstd::prelude::*;

verus! {

/// What a search is for: a block on top of `previous_hash` at `height`, whose hash
/// starts with `difficulty_bits` zero bits. A pool also takes hashes that start
/// with `share_difficulty_bits` zero bits, as shares.
#[derive(Clone, Copy, Debug)]
pub struct MiningJob {
    pub previous_hash: [u8; 32],
    pub height: u64,
    pub difficulty_bits: u32,
    pub share_difficulty_bits: Option<u32>,
}

/// What SHA-256 makes of a byte string.
pub uninterp spec fn sha256(data: Seq<u8>) -> [u8; 32];

/// Calls `sha2::Sha256::digest`: the 32-byte SHA-256 digest of its argument, named
/// here by `sha256`. Nothing is said of what the digest is on given bytes.
#[verifier::external_body]
fn sha256_digest(data: &[u8; 48]) -> (digest: [u8; 32])
    ensures
        digest == sha256(data@),
{
    sha2::Sha256::digest(data).into()
}

/// Calls `rand::RngCore::fill_bytes` on `rand::thread_rng()`: `N` random bytes, any
/// of which may be anything.
#[verifier::external_body]
pub(crate) fn random_array<const N: usize>() -> (r: [u8; N]) {
    let mut buf = [0u8; N];
    rand::thread_rng().fill_bytes(&mut buf);
    buf
}

/// The eight bytes in which a nonce is hashed.
pub fn nonce_to_bytes8(n: u64) -> (b: [u8; 8])
    ensures
        b@ == be_bytes(n as nat, 8),
{
    u64_to_be(n)
}

/// The eight bytes in which a height is hashed.
pub fn height_to_bytes8(n: u64) -> (b: [u8; 8])
    ensures
        b@ == be_bytes(n as nat, 8),
{
    u64_to_be(n)
}

impl MiningJob {
    /// The part of the hashed message that does not change during a search.
    pub open spec fn header(self) -> Seq<u8> {
        self.previous_hash@ + be_bytes(self.height as nat, 8)
    }

    /// The message hashed for a nonce.
    pub open spec fn message(self, nonce: u64) -> Seq<u8> {
        self.header() + be_bytes(nonce as nat, 8)
    }

    /// The zero bits that the hash for a nonce starts with.
    pub open spec fn zero_bits(self, nonce: u64) -> nat {
        leading_zeros(sha256(self.message(nonce))@)
    }

    /// Whether a nonce makes a block.
    pub open spec fn solves(self, nonce: u64) -> bool {
        self.zero_bits(nonce) >= self.difficulty_bits
    }

    /// Whether a nonce makes a share and no block.
    pub open spec fn is_share(self, nonce: u64) -> bool {
        &&& !self.solves(nonce)
        &&& self.share_difficulty_bits matches Some(bits) && self.zero_bits(nonce) >= bits
    }
}

/// The 40 bytes that every message of a job starts with.
pub fn job_header(job: &MiningJob) -> (header: [u8; 40])
    ensures
        header@ == job.header(),
{
    let height: [u8; 8] = height_to_bytes8(job.height);
    let mut header: [u8; 40] = [0u8; 40];
    let mut i: usize = 0;
    while i < 40
        invariant
            i <= 40,
            height@ == be_bytes(job.height as nat, 8),
            header@.take(i as int) == job.header().take(i as int),
        decreases 40 - i,
    {
        proof {
            assert(height@.len() == 8);
        }
        if i < 32 {
            header[i] = job.previous_hash[i];
        } else {
            header[i] = height[i - 32];
        }
        i = i + 1;
        proof {
            assert(header@.take(i as int) =~= job.header().take(i as int));
        }
    }
    proof {
        assert(header@ =~= header@.take(40));
        assert(job.header() =~= job.header().take(40));
    }
    header
}

/// The 48 bytes hashed for a nonce: the header, then the nonce.
pub fn candidate_message(header: &[u8; 40], nonce: u64) -> (data: [u8; 48])
    ensures
        data@ == header@ + be_bytes(nonce as nat, 8),
{
    let tail: [u8; 8] = nonce_to_bytes8(nonce);
    let mut data: [u8; 48] = [0u8; 48];
    let ghost whole = header@ + tail@;
    let mut i: usize = 0;
    while i < 48
        invariant
            i <= 48,
            whole == header@ + tail@,
            data@.take(i as int) == whole.take(i as int),
        decreases 48 - i,
    {
        if i < 40 {
            data[i] = header[i];
        } else {
            data[i] = tail[i - 40];
        }
        i = i + 1;
        proof {
            assert(data@.take(i as int) =~= whole.take(i as int));
        }
    }
    proof {
        assert(data@ =~= data@.take(48));
        assert(whole =~= whole.take(48));
    }
    data
}

/// The zero bits of the hash of `header` followed by `nonce`.
pub fn hash_zero_bits(header: &[u8; 40], nonce: u64) -> (bits: u32)
    ensures
        bits as nat == leading_zeros(sha256(header@ + be_bytes(nonce as nat, 8))@),
        bits <= 256,
{
    let data: [u8; 48] = candidate_message(header, nonce);
    let digest: [u8; 32] = sha256_digest(&data);
    proof {
        leading_zeros_bound(digest@);
    }
    leading_zero_bits(digest.as_slice())
}

/// The most attempts that a worker keeps to itself before it reports them.
pub const REPORT_BATCH: u64 = 2000;

/// The length of one duty cycle, in nanoseconds.
pub const WINDOW_NANOS: u64 = 200_000_000;

/// A power level as it is applied: at least 1 and at most 100 percent.
pub open spec fn applied_power(percent: u32) -> u32 {
    if percent < 1 {
        1
    } else if percent > 100 {
        100
    } else {
        percent
    }
}

/// Brings a power level into the range from 1 to 100 percent.
pub fn clamp_power(percent: u32) -> (power: u32)
    ensures
        power == applied_power(percent),
{
    if percent < 1 {
        1
    } else if percent > 100 {
        100
    } else {
        percent
    }
}

/// What became of one hash.
#[derive(Clone, Copy, Debug, PartialEq, Eq, Structural)]
pub enum Attempt {
    /// The nonce makes a block: the search is over.
    Solved(u64),
    /// The nonce makes a share and no block: the search goes on.
    Share(u64),
    /// Neither.
    Miss,
}

/// What a hash with `zero_bits` leading zero bits is worth.
pub open spec fn attempt_worth(
    nonce: u64,
    zero_bits: nat,
    difficulty_bits: u32,
    share_difficulty_bits: Option<u32>,
) -> Attempt {
    if zero_bits >= difficulty_bits {
        Attempt::Solved(nonce)
    } else if share_difficulty_bits matches Some(bits) && zero_bits >= bits {
        Attempt::Share(nonce)
    } else {
        Attempt::Miss
    }
}

/// Tells what a hash with `zero_bits` leading zero bits is worth.
pub fn judge_attempt(
    nonce: u64,
    zero_bits: u32,
    difficulty_bits: u32,
    share_difficulty_bits: Option<u32>,
) -> (attempt: Attempt)
    ensures
        attempt == attempt_worth(nonce, zero_bits as nat, difficulty_bits, share_difficulty_bits),
{
    if zero_bits >= difficulty_bits {
        return Attempt::Solved(nonce);
    }
    match share_difficulty_bits {
        Some(bits) => {
            if zero_bits >= bits {
                Attempt::Share(nonce)
            } else {
                Attempt::Miss
            }
        },
        None => Attempt::Miss,
    }
}

/// What a worker does between two hashes.
#[derive(Clone, Copy, Debug, PartialEq, Eq, Structural)]
pub enum Pace {
    /// Hash on.
    Continue,
    /// Add this many attempts to the shared count, then hash on.
    Report(u64),
    /// Add `attempts` to the shared count, sleep for `nanos` and open a new window.
    Rest { attempts: u64, nanos: u64 },
}

impl Pace {
    /// The attempts that go to the shared count.
    pub open spec fn reported(self) -> nat {
        match self {
            Pace::Continue => 0,
            Pace::Report(attempts) => attempts as nat,
            Pace::Rest { attempts, .. } => attempts as nat,
        }
    }
}

/// The part of a window, in nanoseconds, during which a worker hashes at `percent` power.
pub open spec fn active_nanos(percent: u32) -> int {
    WINDOW_NANOS * applied_power(percent) / 100
}

/// One search thread: the nonces `nonce`, `nonce + stride`, `nonce + 2 * stride`,
/// and so on, modulo 2 to the 64.
#[derive(Clone, Copy, Debug)]
pub struct Worker {
    pub header: [u8; 40],
    pub nonce: u64,
    pub stride: u64,
    pub difficulty_bits: u32,
    pub share_difficulty_bits: Option<u32>,
    pub local_attempts: u64,
}

impl Worker {
    /// Fewer attempts than a batch wait to be reported.
    pub open spec fn wf(self) -> bool {
        self.local_attempts < REPORT_BATCH
    }

    /// Whether this worker searches for `job`.
    pub open spec fn works_on(self, job: MiningJob) -> bool {
        &&& self.header@ == job.header()
        &&& self.difficulty_bits == job.difficulty_bits
        &&& self.share_difficulty_bits == job.share_difficulty_bits
    }

    /// The zero bits of the hash for this worker's present nonce.
    pub open spec fn zero_bits(self) -> nat {
        leading_zeros(sha256(self.header@ + be_bytes(self.nonce as nat, 8))@)
    }

    /// What the hash for this worker's present nonce is worth.
    pub open spec fn outcome(self) -> Attempt {
        attempt_worth(
            self.nonce,
            self.zero_bits(),
            self.difficulty_bits,
            self.share_difficulty_bits,
        )
    }

    /// The worker after one attempt.
    pub open spec fn after_attempt(self) -> Worker {
        Worker {
            nonce: if self.outcome() is Solved {
                self.nonce
            } else {
                next_nonce(self.nonce, self.stride)
            },
            local_attempts: (self.local_attempts + 1) as u64,
            ..self
        }
    }

    /// What this worker does before the next hash.
    pub open spec fn next_pace(self, power_percent: u32, window_nanos: u128) -> Pace {
        if applied_power(power_percent) < 100 && window_nanos >= active_nanos(power_percent) {
            Pace::Rest {
                attempts: self.local_attempts,
                nanos: (WINDOW_NANOS - active_nanos(power_percent)) as u64,
            }
        } else if self.local_attempts >= REPORT_BATCH {
            Pace::Report(self.local_attempts)
        } else {
            Pace::Continue
        }
    }

    /// The worker after it has paced itself.
    pub open spec fn after_pace(self, pace: Pace) -> Worker {
        Worker {
            local_attempts: if pace is Continue {
                self.local_attempts
            } else {
                0
            },
            ..self
        }
    }

    /// Hashes the present nonce, counts the attempt, and moves on to the next nonce
    /// unless the present one makes a block.
    pub fn attempt(&mut self) -> (attempt: Attempt)
        requires
            old(self).wf(),
        ensures
            attempt == old(self).outcome(),
            *final(self) == old(self).after_attempt(),
    {
        let bits: u32 = hash_zero_bits(&self.header, self.nonce);
        let attempt = judge_attempt(
            self.nonce,
            bits,
            self.difficulty_bits,
            self.share_difficulty_bits,
        );
        self.local_attempts = self.local_attempts + 1;
        match attempt {
            Attempt::Solved(_) => {},
            _ => {
                self.nonce = self.nonce.wrapping_add(self.stride);
            },
        }
        attempt
    }

    /// Hashes the present nonce unless the search is to stop. A worker that stops leaves
    /// everything as it is; what it has not reported yet is in `local_attempts`.
    pub fn attempt_unless(&mut self, stop: bool) -> (attempt: Option<Attempt>)
        requires
            old(self).wf(),
        ensures
            attempt == (if stop {
                None
            } else {
                Some(old(self).outcome())
            }),
            *final(self) == (if stop {
                *old(self)
            } else {
                old(self).after_attempt()
            }),
    {
        if stop {
            None
        } else {
            Some(self.attempt())
        }
    }

    /// Decides what to do before the next hash, `window_nanos` after the present
    /// window was opened. Below full power the worker hashes for its share of the
    /// window and sleeps for the rest of it; at any power it reports a full batch.
    pub fn pace(&mut self, power_percent: u32, window_nanos: u128) -> (pace: Pace)
        requires
            old(self).local_attempts <= REPORT_BATCH,
        ensures
            final(self).wf(),
            pace == old(self).next_pace(power_percent, window_nanos),
            *final(self) == old(self).after_pace(pace),
    {
        let attempts: u64 = self.local_attempts;
        let power: u32 = clamp_power(power_percent);
        if power < 100 {
            let active: u64 = WINDOW_NANOS * (power as u64) / 100;
            if window_nanos >= active as u128 {
                self.local_attempts = 0;
                return Pace::Rest { attempts, nanos: WINDOW_NANOS - active };
            }
        }
        if attempts >= REPORT_BATCH {
            self.local_attempts = 0;
            return Pace::Report(attempts);
        }
        Pace::Continue
    }
}

/// The nonce that follows `nonce` in a worker's search.
pub open spec fn next_nonce(nonce: u64, stride: u64) -> u64 {
    ((nonce + stride) % 0x1_0000_0000_0000_0000) as u64
}

/// The nonce that a worker starting at `start` comes to after `k` steps.
pub open spec fn nonce_after(start: u64, stride: u64, k: nat) -> u64 {
    ((start + k * stride) % 0x1_0000_0000_0000_0000) as u64
}

/// The exclusive upper bound of a nonce offset.
pub const OFFSET_BOUND: u64 = 0x0100_0000_0000_0000;

/// Makes an offset below 2 to the 56 out of eight bytes.
pub fn nonce_offset(random: [u8; 8]) -> (offset: u64)
    ensures
        offset as nat == be_value(random@) % (OFFSET_BOUND as nat),
        offset < OFFSET_BOUND,
{
    let n: u64 = u64_from_be(&random);
    proof {
        assert(n & 0x00ff_ffff_ffff_ffff == n % 0x0100_0000_0000_0000) by (bit_vector);
    }
    n & 0x00ff_ffff_ffff_ffff
}

/// Whether `workers` are the `workers.len()` workers that search for `job` from
/// `offset` on.
pub open spec fn is_team(workers: Seq<Worker>, job: MiningJob, offset: u64) -> bool {
    forall|i: int|
        0 <= i < workers.len() ==> {
            let w = #[trigger] workers[i];
            &&& w.works_on(job)
            &&& w.nonce == next_nonce(offset, i as u64)
            &&& w.stride == workers.len()
            &&& w.local_attempts == 0
        }
}

/// The workers of a job: worker `i` of `num_threads` starts at `offset + i` and takes
/// every `num_threads`-th nonce from there.
pub fn plan_workers(job: &MiningJob, num_threads: usize, offset: u64) -> (workers: Vec<Worker>)
    ensures
        workers@.len() == num_threads,
        is_team(workers@, *job, offset),
{
    let header: [u8; 40] = job_header(job);
    let stride: u64 = num_threads as u64;
    let mut workers: Vec<Worker> = Vec::new();
    let mut i: usize = 0;
    while i < num_threads
        invariant
            i <= num_threads,
            stride == num_threads,
            header@ == job.header(),
            workers@.len() == i,
            forall|j: int|
                0 <= j < i ==> {
                    let w = #[trigger] workers@[j];
                    &&& w.works_on(*job)
                    &&& w.nonce == next_nonce(offset, j as u64)
                    &&& w.stride == num_threads
                    &&& w.local_attempts == 0
                },
        decreases num_threads - i,
    {
        workers.push(
            Worker {
                header,
                nonce: offset.wrapping_add(i as u64),
                stride,
                difficulty_bits: job.difficulty_bits,
                share_difficulty_bits: job.share_difficulty_bits,
                local_attempts: 0,
            },
        );
        i = i + 1;
    }
    workers
}

/// The workers of a job, from an offset drawn at random for this job.
pub fn start_mining(job: &MiningJob, num_threads: usize) -> (workers: Vec<Worker>)
    ensures
        workers@.len() == num_threads,
        exists|offset: u64| offset < OFFSET_BOUND && #[trigger] is_team(workers@, *job, offset),
{
    let offset: u64 = nonce_offset(random_array::<8>());
    plan_workers(job, num_threads, offset)
}

/// A step leads from one nonce of a search to the next.
pub proof fn nonces_are_strided(start: u64, stride: u64, k: nat)
    ensures
        nonce_after(start, stride, 0) == start,
        nonce_after(start, stride, k + 1) == next_nonce(nonce_after(start, stride, k), stride),
{
    let m: int = 0x1_0000_0000_0000_0000;
    let x: int = start + k * stride;
    assert(start + (k + 1) * stride == x + stride) by (nonlinear_arith)
        requires
            x == start + k * stride,
    ;
    vstd::arithmetic::div_mod::lemma_add_mod_noop(x, stride as int, m);
    vstd::arithmetic::div_mod::lemma_small_mod(stride as nat, m as nat);
    assert(0 * stride == 0);
}

/// Two workers of a team never hash the same nonce, and one worker never hashes a
/// nonce twice, as long as the search has not run past the last 64-bit nonce.
pub proof fn workers_never_collide(offset: u64, team: u64, i: nat, k: nat, j: nat, l: nat)
    requires
        i < team,
        j < team,
        offset + i + k * team <= u64::MAX,
        offset + j + l * team <= u64::MAX,
        nonce_after(next_nonce(offset, i as u64), team, k) == nonce_after(
            next_nonce(offset, j as u64),
            team,
            l,
        ),
    ensures
        i == j,
        k == l,
{
    assert(k * team >= 0 && l * team >= 0) by (nonlinear_arith);
    assert(offset + i <= u64::MAX && offset + j <= u64::MAX);
    assert(i + k * team == j + l * team);
    vstd::arithmetic::div_mod::lemma_fundamental_div_mod_converse(
        i + k * team,
        team as int,
        k as int,
        i as int,
    );
    vstd::arithmetic::div_mod::lemma_fundamental_div_mod_converse(
        j + l * team,
        team as int,
        l as int,
        j as int,
    );
}

/// A team leaves no nonce out: every nonce from the offset on is hashed by some worker.
pub proof fn workers_leave_no_gap(offset: u64, team: u64, nonce: u64) -> (at: (nat, nat))
    requires
        0 < team,
        offset <= nonce,
    ensures
        at.0 < team,
        nonce_after(next_nonce(offset, at.0 as u64), team, at.1) == nonce,
{
    let d: int = nonce - offset;
    let i: int = d % (team as int);
    let k: int = d / (team as int);
    vstd::arithmetic::div_mod::lemma_fundamental_div_mod(d, team as int);
    vstd::arithmetic::div_mod::lemma_mod_bound(d, team as int);
    vstd::arithmetic::div_mod::lemma_div_pos_is_pos(d, team as int);
    assert(team * k == k * team) by (nonlinear_arith);
    assert(k * team >= 0) by (nonlinear_arith)
        requires
            k >= 0,
    ;
    (i as nat, k as nat)
}

/// An offset leaves room for more than 18 * 10^18 nonces before the search runs past
/// the last 64-bit nonce.
pub proof fn offset_leaves_room(offset: u64, team: u64, i: nat, k: nat)
    requires
        offset < OFFSET_BOUND,
        i < team,
        (k + 1) * team <= 18_000_000_000_000_000_000,
    ensures
        offset + i + k * team <= u64::MAX,
{
    assert((k + 1) * team == k * team + team) by (nonlinear_arith);
}

/// What a worker reports of a nonce is true of the job it searches for: a block is
/// reported exactly for a nonce that solves the job, a share exactly for one that
/// clears the share target and not the full one.
pub proof fn reports_are_true(w: Worker, job: MiningJob)
    requires
        w.works_on(job),
    ensures
        w.outcome() == Attempt::Solved(w.nonce) <==> job.solves(w.nonce),
        w.outcome() == Attempt::Share(w.nonce) <==> job.is_share(w.nonce),
        w.outcome() is Solved ==> w.outcome() == Attempt::Solved(w.nonce),
        w.outcome() is Share ==> w.outcome() == Attempt::Share(w.nonce),
        job.share_difficulty_bits is None ==> !(w.outcome() is Share),
        w.after_attempt().works_on(job),
{
    assert(w.header@ + be_bytes(w.nonce as nat, 8) == job.message(w.nonce));
}

/// A worker that has hashed once for each beat of `beats`, a power level and the time
/// since its window was opened, or until a block is found: the worker, the
/// attempts it has reported and the hashes it has made.
pub open spec fn search(w: Worker, beats: Seq<(u32, u128)>) -> (Worker, nat, nat)
    decreases beats.len(),
{
    if beats.len() == 0 {
        (w, 0, 0)
    } else if w.outcome() is Solved {
        (w.after_attempt(), 0, 1)
    } else {
        let tried = w.after_attempt();
        let pace = tried.next_pace(beats[0].0, beats[0].1);
        let rest = search(tried.after_pace(pace), beats.drop_first());
        (rest.0, rest.1 + pace.reported(), rest.2 + 1)
    }
}

/// Every hash is counted once: what a worker has reported and what it still holds add
/// up to the hashes it has made.
pub proof fn hashes_are_counted_once(w: Worker, beats: Seq<(u32, u128)>)
    requires
        w.wf(),
    ensures
        ({
            let (end, reported, hashes) = search(w, beats);
            reported + end.local_attempts == w.local_attempts + hashes
        }),
    decreases beats.len(),
{
    if beats.len() > 0 && !(w.outcome() is Solved) {
        let tried = w.after_attempt();
        let pace = tried.next_pace(beats[0].0, beats[0].1);
        hashes_are_counted_once(tried.after_pace(pace), beats.drop_first());
    }
}

/// A worker keeps to its own nonces: after some hashes it stands at the nonce that
/// many steps from its first one, or at the one before if that one makes a block.
pub proof fn search_keeps_to_its_nonces(w: Worker, beats: Seq<(u32, u128)>)
    ensures
        ({
            let (end, reported, hashes) = search(w, beats);
            ||| end.nonce == nonce_after(w.nonce, w.stride, hashes)
            ||| hashes > 0 && end.outcome() is Solved && end.nonce == nonce_after(
                w.nonce,
                w.stride,
                (hashes - 1) as nat,
            )
        }),
        search(w, beats).0.stride == w.stride,
    decreases beats.len(),
{
    let (end, reported, hashes) = search(w, beats);
    nonces_are_strided(w.nonce, w.stride, 0);
    if beats.len() > 0 && !(w.outcome() is Solved) {
        let tried = w.after_attempt();
        let pace = tried.next_pace(beats[0].0, beats[0].1);
        let next = tried.after_pace(pace);
        search_keeps_to_its_nonces(next, beats.drop_first());
        let n = search(next, beats.drop_first()).2;
        shifted_nonces(w.nonce, w.stride, n);
        if n > 0 {
            shifted_nonces(w.nonce, w.stride, (n - 1) as nat);
        }
    }
}

/// Steps from the second nonce on are steps from the first nonce on, less one.
proof fn shifted_nonces(start: u64, stride: u64, k: nat)
    ensures
        nonce_after(next_nonce(start, stride), stride, k) == nonce_after(start, stride, k + 1),
    decreases k,
{
    nonces_are_strided(start, stride, k);
    nonces_are_strided(start, stride, 0);
    nonces_are_strided(next_nonce(start, stride), stride, k);
    if k > 0 {
        let j = (k - 1) as nat;
        shifted_nonces(start, stride, j);
        nonces_are_strided(next_nonce(start, stride), stride, j);
    }
}

/// Working time and resting time make up one window. The lowest power level hashes
/// for a hundredth of it, the highest never rests.
pub proof fn duty_cycle(w: Worker, percent: u32, window_nanos: u128)
    ensures
        w.next_pace(percent, window_nanos) matches Pace::Rest { nanos, .. } ==> nanos
            + active_nanos(percent) == WINDOW_NANOS && 0 < nanos,
        WINDOW_NANOS / 100 <= active_nanos(percent) <= WINDOW_NANOS,
        percent >= 100 ==> !(w.next_pace(percent, window_nanos) is Rest),
{
}

/// What is hashed for a nonce: 48 bytes, of which the first 32 are the previous hash, the
/// next eight the height and the last eight the nonce, both with the most significant
/// byte first.
pub proof fn what_is_hashed(job: MiningJob, nonce: u64)
    ensures
        job.message(nonce).len() == 48,
        forall|i: int| 0 <= i < 32 ==> #[trigger] job.message(nonce)[i] == job.previous_hash@[i],
        job.message(nonce).subrange(32, 40) == be_bytes(job.height as nat, 8),
        job.message(nonce).subrange(40, 48) == be_bytes(nonce as nat, 8),
        be_value(job.message(nonce).subrange(32, 40)) == job.height,
        be_value(job.message(nonce).subrange(40, 48)) == nonce,
{
    let m = job.message(nonce);
    crate::bytes::eight_bytes_of_a_number(job.height);
    crate::bytes::eight_bytes_of_a_number(nonce);
    reveal_with_fuel(crate::bytes::capacity, 9);
    crate::bytes::bytes_spell_value(job.height as nat, 8);
    crate::bytes::bytes_spell_value(nonce as nat, 8);
    assert(m.subrange(32, 40) =~= be_bytes(job.height as nat, 8));
    assert(m.subrange(40, 48) =~= be_bytes(nonce as nat, 8));
}

/// A nonce makes a block exactly if the first `difficulty_bits` bits of the hash of what
/// is hashed for it are zero. It makes a share exactly if it makes no block, there is a
/// share target, and as many of these bits are zero as that says.
pub proof fn what_makes_a_block(job: MiningJob, nonce: u64)
    ensures
        job.solves(nonce) <==> job.difficulty_bits <= 256 && forall|k: int|
            0 <= k < job.difficulty_bits ==> (#[trigger] (sha256(job.message(nonce))@[k / 8] >> ((7
                - k % 8) as u8))) & 1u8 == 0u8,
        job.is_share(nonce) <==> !job.solves(nonce) && (job.share_difficulty_bits matches Some(bits)
            && bits <= 256 && forall|k: int|
            0 <= k < bits ==> (#[trigger] (sha256(job.message(nonce))@[k / 8] >> ((7 - k
                % 8) as u8))) & 1u8 == 0u8),
        job.zero_bits(nonce) == leading_zeros(sha256(job.message(nonce))@),
{
    let hash = sha256(job.message(nonce))@;
    crate::difficulty::starts_with_zero_bits(hash, job.difficulty_bits as nat);
    if let Some(bits) = job.share_difficulty_bits {
        crate::difficulty::starts_with_zero_bits(hash, bits as nat);
    }
}

/// One hash of a worker: what it is worth goes by the two targets alone, it counts as one
/// attempt, and unless it makes a block the worker moves on by its stride, past
/// the last 64-bit nonce to the first. Nothing else of the worker changes.
pub proof fn one_attempt(w: Worker)
    requires
        w.local_attempts < u64::MAX,
    ensures
        ({
            let zeros = leading_zeros(sha256(w.header@ + be_bytes(w.nonce as nat, 8))@);
            let block = zeros >= w.difficulty_bits;
            let share = !block && (w.share_difficulty_bits matches Some(bits) && zeros >= bits);
            let next = w.after_attempt();
            &&& w.outcome() == Attempt::Solved(w.nonce) <==> block
            &&& w.outcome() == Attempt::Share(w.nonce) <==> share
            &&& w.outcome() is Miss <==> !block && !share
            &&& next.local_attempts == w.local_attempts + 1
            &&& block ==> next.nonce == w.nonce
            &&& !block && w.nonce + w.stride <= u64::MAX ==> next.nonce == w.nonce + w.stride
            &&& !block && w.nonce + w.stride > u64::MAX ==> next.nonce == w.nonce + w.stride
                - 0x1_0000_0000_0000_0000
            &&& next.header == w.header
            &&& next.stride == w.stride
            &&& next.difficulty_bits == w.difficulty_bits
            &&& next.share_difficulty_bits == w.share_difficulty_bits
        }),
{
}

/// When a worker rests: below full power, exactly if the time since its window of 200
/// milliseconds was opened has reached as many hundredths of the window as the power
/// level says, and then for what is left of the window. A power level of zero
/// counts as one percent, one above 100 as full power. A worker that does not rest
/// reports exactly if 2000 attempts have come together. A worker that rests or reports
/// hands over all its attempts and starts to count anew.
pub proof fn when_a_worker_rests(w: Worker, percent: u32, window_nanos: u128)
    ensures
        ({
            let power: int = if percent == 0 {
                1
            } else if percent > 100 {
                100
            } else {
                percent as int
            };
            let pace = w.next_pace(percent, window_nanos);
            let rests = power < 100 && 100 * window_nanos >= 200_000_000 * power;
            &&& pace is Rest <==> rests
            &&& pace matches Pace::Rest { attempts, nanos } ==> attempts == w.local_attempts && 100
                * nanos == 200_000_000 * (100 - power)
            &&& pace is Report <==> !rests && w.local_attempts >= 2000
            &&& pace matches Pace::Report(attempts) ==> attempts == w.local_attempts
            &&& w.after_pace(pace).local_attempts == (if pace is Continue {
                w.local_attempts
            } else {
                0
            })
            &&& w.after_pace(pace).nonce == w.nonce
            &&& w.after_pace(pace).header == w.header
            &&& w.after_pace(pace).stride == w.stride
            &&& w.after_pace(pace).difficulty_bits == w.difficulty_bits
            &&& w.after_pace(pace).share_difficulty_bits == w.share_difficulty_bits
        }),
{
}

/// A power level is kept as it is from 1 to 100 percent; below it is raised to 1, above
/// it is lowered to 100.
pub proof fn power_levels(percent: u32)
    ensures
        1 <= applied_power(percent) <= 100,
        1 <= percent <= 100 ==> applied_power(percent) == percent,
        percent < 1 ==> applied_power(percent) == 1,
        percent > 100 ==> applied_power(percent) == 100,
{
}

/// The workers of a team differ only in where they start: each one place after the one
/// before it, the first at the offset. All of them step by the number of workers, hash
/// what the job says and compare with its targets.
pub proof fn workers_of_a_team(workers: Seq<Worker>, job: MiningJob, offset: u64, i: int)
    requires
        is_team(workers, job, offset),
        0 <= i < workers.len() <= u64::MAX,
    ensures
        workers[i].nonce == (if offset + i <= u64::MAX {
            offset + i
        } else {
            offset + i - 0x1_0000_0000_0000_0000
        }),
        workers[i].stride == workers.len(),
        workers[i].local_attempts == 0,
        workers[i].difficulty_bits == job.difficulty_bits,
        workers[i].share_difficulty_bits == job.share_difficulty_bits,
        forall|nonce: u64|
            workers[i].header@ + be_bytes(nonce as nat, 8) == #[trigger] job.message(nonce),
{
}

} // verus!
