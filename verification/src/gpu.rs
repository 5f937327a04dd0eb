//! What surrounds a search on a graphics device. The device is fast and not
//! trusted: every nonce that it reports is hashed again here before it is used.

use crate::bytes::{be_bytes, be_value, bytes_concat, capacity, u32_from_be, value_spells_bytes};
use crate::difficulty::leading_zeros_bound;
use crate::miner::{
    applied_power, clamp_power, hash_zero_bits, job_header, nonce_offset, random_array, sha256,
    MiningJob, OFFSET_BOUND,
};
use vstd::prelude::*;

verus! {

pub const WORKGROUP_SIZE: u32 = 256;

pub const NUM_WORKGROUPS: u32 = 4096;

/// The threads that one batch runs: `WORKGROUP_SIZE * NUM_WORKGROUPS`.
pub const TOTAL_THREADS: u32 = 1_048_576;

/// The nonces that one thread tries in a batch.
pub const ITERATIONS_PER_BATCH: u32 = 64;

/// The nonces that one batch tries: `TOTAL_THREADS * ITERATIONS_PER_BATCH`.
pub const BATCH_HASHES: u64 = 67_108_864;

/// The share target of a job without a pool: no hash reaches it.
pub const SHARE_DIFFICULTY_DISABLED: u32 = 0xffff_ffff;

/// What kind of device an adapter stands for.
#[derive(Clone, Copy, Debug, PartialEq, Eq, Structural)]
pub enum DeviceKind {
    Other,
    IntegratedGpu,
    DiscreteGpu,
    VirtualGpu,
    Cpu,
}

/// Which adapter to mine with.
#[derive(Clone, Copy, Debug, PartialEq, Eq, Structural)]
pub enum AdapterChoice {
    /// The listed adapter at this place.
    Listed(usize),
    /// None of the listed ones: ask the system for one, and take it if it is usable.
    AskSystem,
}

/// Whether an adapter is worth mining with: a software rasterizer is not.
pub fn is_usable(kind: DeviceKind) -> (usable: bool)
    ensures
        usable == (kind != DeviceKind::Cpu),
{
    match kind {
        DeviceKind::Cpu => false,
        _ => true,
    }
}

/// Whether `i` is the first place in `kinds` at which `wanted` holds.
pub open spec fn is_first(
    kinds: Seq<DeviceKind>,
    i: int,
    wanted: spec_fn(DeviceKind) -> bool,
) -> bool {
    &&& 0 <= i < kinds.len()
    &&& wanted(kinds[i])
    &&& forall|j: int| 0 <= j < i ==> !wanted(#[trigger] kinds[j])
}

/// Picks the first discrete device; without one, the first usable device.
pub fn pick_adapter(kinds: &Vec<DeviceKind>) -> (choice: AdapterChoice)
    ensures
        match choice {
            AdapterChoice::Listed(i) => if kinds@.contains(DeviceKind::DiscreteGpu) {
                is_first(kinds@, i as int, |k: DeviceKind| k == DeviceKind::DiscreteGpu)
            } else {
                is_first(kinds@, i as int, |k: DeviceKind| k != DeviceKind::Cpu)
            },
            AdapterChoice::AskSystem => forall|j: int|
                0 <= j < kinds@.len() ==> #[trigger] kinds@[j] == DeviceKind::Cpu,
        },
        choice matches AdapterChoice::Listed(i) ==> {
            &&& i < kinds@.len()
            &&& kinds@[i as int] != DeviceKind::Cpu
            &&& forall|j: int| 0 <= j < i ==> #[trigger] kinds@[j] != DeviceKind::DiscreteGpu
            &&& kinds@[i as int] != DeviceKind::DiscreteGpu ==> forall|j: int|
                0 <= j < kinds@.len() ==> #[trigger] kinds@[j] != DeviceKind::DiscreteGpu && (j < i
                    ==> kinds@[j] == DeviceKind::Cpu)
        },
{
    let mut i: usize = 0;
    while i < kinds.len()
        invariant
            i <= kinds@.len(),
            forall|j: int| 0 <= j < i ==> #[trigger] kinds@[j] != DeviceKind::DiscreteGpu,
        decreases kinds@.len() - i,
    {
        if kinds[i] == DeviceKind::DiscreteGpu {
            return AdapterChoice::Listed(i);
        }
        i = i + 1;
    }
    let mut i: usize = 0;
    while i < kinds.len()
        invariant
            i <= kinds@.len(),
            forall|j: int| 0 <= j < kinds@.len() ==> #[trigger] kinds@[j] != DeviceKind::DiscreteGpu,
            forall|j: int| 0 <= j < i ==> #[trigger] kinds@[j] == DeviceKind::Cpu,
        decreases kinds@.len() - i,
    {
        if is_usable(kinds[i]) {
            return AdapterChoice::Listed(i);
        }
        i = i + 1;
    }
    AdapterChoice::AskSystem
}

/// The block of parameters that the device reads before a batch.
#[derive(Clone, Copy, Debug)]
pub struct GpuParams {
    pub ph: [u32; 8],
    pub height_hi: u32,
    pub height_lo: u32,
    pub nonce_base_hi: u32,
    pub nonce_base_lo: u32,
    pub iterations: u32,
    pub difficulty_bits: u32,
    pub share_difficulty_bits: u32,
    pub total_threads: u32,
}

impl GpuParams {
    /// The block as the device sees it: one word after the other.
    pub open spec fn words(self) -> Seq<u32> {
        self.ph@ + seq![
            self.height_hi,
            self.height_lo,
            self.nonce_base_hi,
            self.nonce_base_lo,
            self.iterations,
            self.difficulty_bits,
            self.share_difficulty_bits,
            self.total_threads,
        ]
    }
}

/// The block that the device writes during a batch.
#[derive(Clone, Copy, Debug, PartialEq, Eq, Structural)]
pub struct GpuFound {
    pub flag: u32,
    pub nonce_hi: u32,
    pub nonce_lo: u32,
    pub share_flag: u32,
    pub share_nonce_hi: u32,
    pub share_nonce_lo: u32,
}

impl GpuFound {
    /// The block as the device sees it: one word after the other.
    pub open spec fn words(self) -> Seq<u32> {
        seq![
            self.flag,
            self.nonce_hi,
            self.nonce_lo,
            self.share_flag,
            self.share_nonce_hi,
            self.share_nonce_lo,
        ]
    }

    /// The nonce reported as a block.
    pub open spec fn nonce(self) -> u64 {
        (self.nonce_hi * 0x1_0000_0000 + self.nonce_lo) as u64
    }

    /// The nonce reported as a share.
    pub open spec fn share_nonce(self) -> u64 {
        (self.share_nonce_hi * 0x1_0000_0000 + self.share_nonce_lo) as u64
    }
}

/// Byte `k` of a word, counted from the least significant one.
pub open spec fn byte_of(word: u32, k: int) -> u8 {
    if k == 0 {
        (word % 256) as u8
    } else if k == 1 {
        (word / 256 % 256) as u8
    } else if k == 2 {
        (word / 65536 % 256) as u8
    } else {
        (word / 16777216) as u8
    }
}

/// Words in memory, on a machine that stores the least significant byte first.
pub open spec fn little_endian(words: Seq<u32>) -> Seq<u8> {
    Seq::new(4 * words.len(), |i: int| byte_of(words[i / 4], i % 4))
}

/// Words in memory, on a machine that stores the most significant byte first.
pub open spec fn big_endian(words: Seq<u32>) -> Seq<u8> {
    Seq::new(4 * words.len(), |i: int| byte_of(words[i / 4], 3 - i % 4))
}

/// Calls `bytemuck::bytes_of`: the bytes of the words as they lie in memory. Which
/// byte of a word comes first is the machine's own matter: it is the same for all
/// words, and not said here.
#[verifier::external_body]
fn memory_of_words(words: &[u32; 16]) -> (bytes: Vec<u8>)
    ensures
        bytes@ == little_endian(words@) || bytes@ == big_endian(words@),
{
    bytemuck::bytes_of(words).to_vec()
}

/// Calls `bytemuck::pod_read_unaligned`: the words that lie in memory as `bytes`.
/// Which byte of a word comes first is the machine's own matter: it is the same
/// for all words, and not said here.
#[verifier::external_body]
fn words_in_memory(bytes: &[u8]) -> (words: [u32; 6])
    requires
        bytes@.len() == 24,
    ensures
        bytes@ == little_endian(words@) || bytes@ == big_endian(words@),
{
    bytemuck::pod_read_unaligned(bytes)
}

/// The parameter block as the bytes that go to the device.
pub fn params_bytes(params: &GpuParams) -> (bytes: Vec<u8>)
    ensures
        bytes@ == little_endian(params.words()) || bytes@ == big_endian(params.words()),
{
    let words: [u32; 16] = [
        params.ph[0],
        params.ph[1],
        params.ph[2],
        params.ph[3],
        params.ph[4],
        params.ph[5],
        params.ph[6],
        params.ph[7],
        params.height_hi,
        params.height_lo,
        params.nonce_base_hi,
        params.nonce_base_lo,
        params.iterations,
        params.difficulty_bits,
        params.share_difficulty_bits,
        params.total_threads,
    ];
    proof {
        assert(words@ =~= params.words());
    }
    memory_of_words(&words)
}

/// The bytes that clear the result block before a batch.
pub fn cleared_found_bytes() -> (bytes: [u8; 24])
    ensures
        bytes@ == Seq::new(24, |i: int| 0u8),
{
    let bytes: [u8; 24] = [0u8; 24];
    proof {
        assert(bytes@ =~= Seq::new(24, |i: int| 0u8));
    }
    bytes
}

/// The result block out of the bytes that came from the device.
pub fn found_from_bytes(bytes: &[u8]) -> (found: GpuFound)
    requires
        bytes@.len() == 24,
    ensures
        bytes@ == little_endian(found.words()) || bytes@ == big_endian(found.words()),
{
    let words: [u32; 6] = words_in_memory(bytes);
    let found = GpuFound {
        flag: words[0],
        nonce_hi: words[1],
        nonce_lo: words[2],
        share_flag: words[3],
        share_nonce_hi: words[4],
        share_nonce_lo: words[5],
    };
    proof {
        assert(words@ =~= found.words());
    }
    found
}

/// A cleared result block reports nothing, whichever way the machine stores a word.
pub proof fn cleared_block_reports_nothing(found: GpuFound)
    requires
        ({
            let cleared = Seq::new(24, |i: int| 0u8);
            cleared == little_endian(found.words()) || cleared == big_endian(found.words())
        }),
    ensures
        found.flag == 0,
        found.share_flag == 0,
{
    let cleared = Seq::new(24, |i: int| 0u8);
    assert forall|w: int| 0 <= w < 6 implies found.words()[w] == 0 by {
        let bytes = if cleared == little_endian(found.words()) {
            little_endian(found.words())
        } else {
            big_endian(found.words())
        };
        assert(bytes[4 * w] == 0 && bytes[4 * w + 1] == 0 && bytes[4 * w + 2] == 0 && bytes[4 * w
            + 3] == 0);
    }
    assert(found.words()[0] == 0 && found.words()[3] == 0);
}

/// The zero bits of the hash for `nonce`.
pub fn candidate_zero_bits(job: &MiningJob, nonce: u64) -> (bits: u32)
    ensures
        bits as nat == job.zero_bits(nonce),
        bits <= 256,
{
    let header: [u8; 40] = job_header(job);
    hash_zero_bits(&header, nonce)
}

/// Whether `nonce` makes a block.
pub fn verify_candidate(job: &MiningJob, nonce: u64) -> (solves: bool)
    ensures
        solves == job.solves(nonce),
{
    candidate_zero_bits(job, nonce) >= job.difficulty_bits
}

/// The share target that the device compares with.
pub open spec fn device_share_target(job: MiningJob) -> u32 {
    match job.share_difficulty_bits {
        Some(bits) => bits,
        None => SHARE_DIFFICULTY_DISABLED,
    }
}

/// The upper half of a number of 64 bits.
pub open spec fn high_word(n: u64) -> u32 {
    (n / 0x1_0000_0000) as u32
}

/// The lower half of a number of 64 bits.
pub open spec fn low_word(n: u64) -> u32 {
    (n % 0x1_0000_0000) as u32
}

/// The parameters of the batch of `job` that starts at `base`.
pub open spec fn is_batch(params: GpuParams, job: MiningJob, base: u64) -> bool {
    &&& forall|i: int|
        0 <= i < 8 ==> #[trigger] params.ph@[i] as nat == be_value(
            job.previous_hash@.subrange(4 * i, 4 * i + 4),
        )
    &&& params.height_hi == high_word(job.height)
    &&& params.height_lo == low_word(job.height)
    &&& params.nonce_base_hi == high_word(base)
    &&& params.nonce_base_lo == low_word(base)
    &&& params.iterations == ITERATIONS_PER_BATCH
    &&& params.difficulty_bits == job.difficulty_bits
    &&& params.share_difficulty_bits == device_share_target(job)
    &&& params.total_threads == TOTAL_THREADS
}

/// Makes the parameters of the batch of `job` that starts at `base`.
pub fn batch_params(job: &MiningJob, base: u64) -> (params: GpuParams)
    ensures
        is_batch(params, *job, base),
{
    let mut ph: [u32; 8] = [0u32; 8];
    let mut i: usize = 0;
    while i < 8
        invariant
            i <= 8,
            forall|j: int|
                0 <= j < i ==> #[trigger] ph@[j] as nat == be_value(
                    job.previous_hash@.subrange(4 * j, 4 * j + 4),
                ),
        decreases 8 - i,
    {
        ph[i] = u32_from_be(job.previous_hash.as_slice(), 4 * i);
        i = i + 1;
    }
    GpuParams {
        ph,
        height_hi: (job.height / 0x1_0000_0000) as u32,
        height_lo: (job.height % 0x1_0000_0000) as u32,
        nonce_base_hi: (base / 0x1_0000_0000) as u32,
        nonce_base_lo: (base % 0x1_0000_0000) as u32,
        iterations: ITERATIONS_PER_BATCH,
        difficulty_bits: job.difficulty_bits,
        share_difficulty_bits: match job.share_difficulty_bits {
            Some(bits) => bits,
            None => SHARE_DIFFICULTY_DISABLED,
        },
        total_threads: TOTAL_THREADS,
    }
}

/// Where the first batch of a job starts, drawn at random.
pub fn first_batch() -> (base: u64)
    ensures
        base < OFFSET_BOUND,
{
    nonce_offset(random_array::<8>())
}

/// Where the batch after the one at `base` starts.
pub fn next_batch(base: u64) -> (next: u64)
    ensures
        next == batch_base(base, 1),
{
    base.wrapping_add(BATCH_HASHES)
}

/// Where batch `k` of a search starts whose first batch starts at `first`.
pub open spec fn batch_base(first: u64, k: nat) -> u64 {
    ((first + k * BATCH_HASHES) % 0x1_0000_0000_0000_0000) as u64
}

/// What comes of a batch.
#[derive(Clone, Copy, Debug, PartialEq, Eq, Structural)]
pub struct BatchVerdict {
    /// A nonce that makes a block: the search is over.
    pub solved: Option<u64>,
    /// The device reported a block that is none.
    pub false_block: bool,
    /// A nonce that makes a share and no block.
    pub share: Option<u64>,
    /// The device reported a share that does not reach the share target.
    pub false_share: bool,
}

/// What comes of a batch, given the zero bits of the hashes for the two reported
/// nonces. A share counts only where there is a channel to send it to, only if no block
/// was found, and only if its nonce does not make a block itself.
pub open spec fn verdict(
    found: GpuFound,
    block_bits: nat,
    share_bits: nat,
    difficulty_bits: u32,
    share_target: u32,
    share_channel: bool,
) -> BatchVerdict {
    let block = found.flag != 0;
    let share = found.share_flag != 0 && share_channel;
    if block && block_bits >= difficulty_bits {
        BatchVerdict {
            solved: Some(found.nonce()),
            false_block: false,
            share: None,
            false_share: false,
        }
    } else {
        BatchVerdict {
            solved: None,
            false_block: block,
            share: if share && share_target <= share_bits < difficulty_bits {
                Some(found.share_nonce())
            } else {
                None
            },
            false_share: share && share_bits < share_target,
        }
    }
}

/// Puts the two halves of a reported nonce together.
fn join_words(hi: u32, lo: u32) -> (n: u64)
    ensures
        n == hi * 0x1_0000_0000 + lo,
{
    (hi as u64) * 0x1_0000_0000 + (lo as u64)
}

/// Decides what comes of a batch, given the zero bits of the hashes for the two
/// reported nonces.
pub fn weigh_batch(
    found: &GpuFound,
    block_bits: u32,
    share_bits: u32,
    difficulty_bits: u32,
    share_target: u32,
    share_channel: bool,
) -> (result: BatchVerdict)
    ensures
        result == verdict(
            *found,
            block_bits as nat,
            share_bits as nat,
            difficulty_bits,
            share_target,
            share_channel,
        ),
{
    let block: bool = found.flag != 0;
    if block && block_bits >= difficulty_bits {
        return BatchVerdict {
            solved: Some(join_words(found.nonce_hi, found.nonce_lo)),
            false_block: false,
            share: None,
            false_share: false,
        };
    }
    let share: bool = found.share_flag != 0 && share_channel;
    BatchVerdict {
        solved: None,
        false_block: block,
        share: if share && share_target <= share_bits && share_bits < difficulty_bits {
            Some(join_words(found.share_nonce_hi, found.share_nonce_lo))
        } else {
            None
        },
        false_share: share && share_bits < share_target,
    }
}

/// What comes of a batch of `job`.
pub open spec fn batch_verdict(job: MiningJob, found: GpuFound, share_channel: bool) -> BatchVerdict {
    verdict(
        found,
        job.zero_bits(found.nonce()),
        job.zero_bits(found.share_nonce()),
        job.difficulty_bits,
        device_share_target(job),
        share_channel,
    )
}

/// Hashes what the device reported again, and decides what comes of the batch.
pub fn judge_batch(job: &MiningJob, found: &GpuFound, share_channel: bool) -> (result: BatchVerdict)
    ensures
        result == batch_verdict(*job, *found, share_channel),
{
    let block_bits: u32 = if found.flag != 0 {
        candidate_zero_bits(job, join_words(found.nonce_hi, found.nonce_lo))
    } else {
        0
    };
    let share_bits: u32 = if found.share_flag != 0 && share_channel {
        candidate_zero_bits(job, join_words(found.share_nonce_hi, found.share_nonce_lo))
    } else {
        0
    };
    let share_target: u32 = match job.share_difficulty_bits {
        Some(bits) => bits,
        None => SHARE_DIFFICULTY_DISABLED,
    };
    weigh_batch(found, block_bits, share_bits, job.difficulty_bits, share_target, share_channel)
}

/// How long to rest after a batch, as a fraction of the time that the batch took:
/// a numerator and a denominator. None at full power.
pub open spec fn rest_fraction(power_percent: u32) -> Option<(u32, u32)> {
    let power = applied_power(power_percent);
    if power < 100 {
        Some(((100 - power) as u32, power))
    } else {
        None
    }
}

/// Tells how long to rest after a batch, as a fraction of the time that the batch took.
pub fn rest_after_batch(power_percent: u32) -> (rest: Option<(u32, u32)>)
    ensures
        rest == rest_fraction(power_percent),
{
    let power: u32 = clamp_power(power_percent);
    if power < 100 {
        Some((100 - power, power))
    } else {
        None
    }
}

/// A search on a device: its job, where the present batch starts, and whether there is
/// a channel to send shares to.
#[derive(Clone, Copy, Debug)]
pub struct GpuSearch {
    pub job: MiningJob,
    pub base: u64,
    pub share_channel: bool,
}

/// What is done after a batch.
#[derive(Clone, Copy, Debug, PartialEq, Eq)]
pub struct BatchStep {
    /// The hashes that go to the shared count.
    pub hashes: u64,
    /// What came of the batch. The search is over if that is a block.
    pub verdict: BatchVerdict,
    /// How long to rest before the next batch, as a fraction of the time taken.
    pub rest: Option<(u32, u32)>,
}

/// What comes of a batch whose result block could not be read.
pub open spec fn no_verdict() -> BatchVerdict {
    BatchVerdict { solved: None, false_block: false, share: None, false_share: false }
}

impl GpuSearch {
    /// What is done after the present batch, whose result block is `answer` if it
    /// could be read.
    pub open spec fn next_step(self, answer: Option<GpuFound>, power_percent: u32) -> BatchStep {
        let verdict = match answer {
            Some(found) => batch_verdict(self.job, found, self.share_channel),
            None => no_verdict(),
        };
        BatchStep {
            hashes: BATCH_HASHES,
            verdict,
            rest: if verdict.solved is Some {
                None
            } else {
                rest_fraction(power_percent)
            },
        }
    }

    /// The search after a batch. It moves on to the next one unless a block was found.
    pub open spec fn after(self, step: BatchStep) -> GpuSearch {
        GpuSearch {
            base: if step.verdict.solved is Some {
                self.base
            } else {
                batch_base(self.base, 1)
            },
            ..self
        }
    }

    /// A search for `job`, from a nonce drawn at random.
    pub fn new(job: &MiningJob, share_channel: bool) -> (search: GpuSearch)
        ensures
            search.job == *job,
            search.share_channel == share_channel,
            search.base < OFFSET_BOUND,
    {
        GpuSearch { job: *job, base: first_batch(), share_channel }
    }

    /// The parameters of the present batch.
    pub fn params(&self) -> (params: GpuParams)
        ensures
            is_batch(params, self.job, self.base),
    {
        batch_params(&self.job, self.base)
    }

    /// The parameters of the present batch, unless the search is to stop.
    pub fn params_unless(&self, stop: bool) -> (params: Option<GpuParams>)
        ensures
            stop <==> params is None,
            params matches Some(p) ==> is_batch(p, self.job, self.base),
    {
        if stop {
            None
        } else {
            Some(self.params())
        }
    }

    /// Decides what is done after the present batch, and moves on to the next one
    /// unless a block was found.
    pub fn finish_batch(&mut self, answer: Option<GpuFound>, power_percent: u32) -> (step:
        BatchStep)
        ensures
            step == old(self).next_step(answer, power_percent),
            *final(self) == old(self).after(step),
    {
        let verdict = match answer {
            Some(found) => judge_batch(&self.job, &found, self.share_channel),
            None => BatchVerdict {
                solved: None,
                false_block: false,
                share: None,
                false_share: false,
            },
        };
        if verdict.solved.is_some() {
            BatchStep { hashes: BATCH_HASHES, verdict, rest: None }
        } else {
            self.base = next_batch(self.base);
            BatchStep { hashes: BATCH_HASHES, verdict, rest: rest_after_batch(power_percent) }
        }
    }
}

/// A search on a device that has run one batch for each answer, with the power level
/// after it, or until a block is found: the search, the hashes that it has counted, the
/// batches that it has run, and whether a block was found.
pub open spec fn device_search(s: GpuSearch, answers: Seq<(Option<GpuFound>, u32)>) -> (
    GpuSearch,
    nat,
    nat,
    bool,
)
    decreases answers.len(),
{
    if answers.len() == 0 {
        (s, 0, 0, false)
    } else {
        let step = s.next_step(answers[0].0, answers[0].1);
        if step.verdict.solved is Some {
            (s.after(step), step.hashes as nat, 1, true)
        } else {
            let rest = device_search(s.after(step), answers.drop_first());
            (rest.0, rest.1 + step.hashes as nat, rest.2 + 1, rest.3)
        }
    }
}

/// Every batch is counted once and with all its hashes, and a search goes from batch
/// to batch and leaves none out: it stands at the batch that follows those that it has
/// run, or at the last of them if that one made a block.
pub proof fn batches_are_counted_once(s: GpuSearch, answers: Seq<(Option<GpuFound>, u32)>)
    ensures
        ({
            let (end, hashes, batches, won) = device_search(s, answers);
            &&& hashes == batches * BATCH_HASHES
            &&& end.job == s.job
            &&& end.share_channel == s.share_channel
            &&& won ==> 0 < batches <= answers.len() && end.base == batch_base(
                s.base,
                (batches - 1) as nat,
            )
            &&& !won ==> batches == answers.len() && end.base == batch_base(s.base, batches)
        }),
    decreases answers.len(),
{
    if answers.len() > 0 {
        let step = s.next_step(answers[0].0, answers[0].1);
        if !(step.verdict.solved is Some) {
            let next = s.after(step);
            batches_are_counted_once(next, answers.drop_first());
            let (_, _, n, won) = device_search(next, answers.drop_first());
            shifted_batches(s.base, n);
            if won {
                shifted_batches(s.base, (n - 1) as nat);
            }
            assert((n + 1) * BATCH_HASHES == n * BATCH_HASHES + BATCH_HASHES);
        } else {
            assert(batch_base(s.base, 0) == s.base);
        }
    } else {
        assert(batch_base(s.base, 0) == s.base);
    }
}

/// Steps from the second batch on are steps from the first batch on, less one.
proof fn shifted_batches(first: u64, k: nat)
    ensures
        batch_base(batch_base(first, 1), k) == batch_base(first, k + 1),
{
    let m: int = 0x1_0000_0000_0000_0000;
    let a: int = first + BATCH_HASHES;
    let b: int = k * BATCH_HASHES;
    vstd::arithmetic::div_mod::lemma_add_mod_noop(a, b, m);
    vstd::arithmetic::div_mod::lemma_add_mod_noop(a % m, b, m);
    vstd::arithmetic::div_mod::lemma_mod_twice(a, m);
}

/// The batch sizes fit together.
pub proof fn batch_sizes()
    ensures
        TOTAL_THREADS == WORKGROUP_SIZE * NUM_WORKGROUPS,
        BATCH_HASHES == TOTAL_THREADS * ITERATIONS_PER_BATCH,
{
}

/// Whatever the device reports, only a nonce that solves the job comes out as a
/// block, and only one that clears the share target of the job and not the full one
/// comes out as a share. Without a pool no share comes out at all.
pub proof fn device_is_not_trusted(job: MiningJob, found: GpuFound, share_channel: bool)
    ensures
        ({
            let result = batch_verdict(job, found, share_channel);
            &&& result.solved matches Some(nonce) ==> job.solves(nonce)
            &&& result.share matches Some(nonce) ==> share_channel && job.is_share(nonce)
            &&& job.share_difficulty_bits is None ==> result.share is None
            &&& !(result.solved is Some && result.share is Some)
        }),
{
    share_target_unreachable(job, found.share_nonce());
}

/// No hash reaches the share target of a job without a pool.
pub proof fn share_target_unreachable(job: MiningJob, nonce: u64)
    ensures
        job.zero_bits(nonce) <= 256 < SHARE_DIFFICULTY_DISABLED,
{
    leading_zeros_bound(sha256(job.message(nonce))@);
}

/// A true report is kept: a solving nonce that the device reports comes out as a block,
/// and without one a share that it reports comes out as a share.
pub proof fn true_reports_are_kept(job: MiningJob, found: GpuFound, share_channel: bool)
    ensures
        found.flag != 0 && job.solves(found.nonce()) ==> batch_verdict(
            job,
            found,
            share_channel,
        ).solved == Some(found.nonce()),
        !(found.flag != 0 && job.solves(found.nonce())) && found.share_flag != 0 && share_channel
            && job.is_share(found.share_nonce()) ==> batch_verdict(
            job,
            found,
            share_channel,
        ).share == Some(found.share_nonce()),
{
}

/// A step leads from one batch to the next, and two batches of a search share no
/// nonce as long as the search has not run past the last 64-bit nonce.
pub proof fn batches_never_overlap(first: u64, k: nat, l: nat)
    requires
        k < l,
        first + (l + 1) * BATCH_HASHES <= u64::MAX,
    ensures
        batch_base(first, 0) == first,
        batch_base(batch_base(first, k), 1) == batch_base(first, k + 1),
        batch_base(first, k) + BATCH_HASHES <= batch_base(first, l),
{
}

/// Two words spell a number of 64 bits as its eight bytes do.
proof fn words_spell(n: u64)
    ensures
        be_bytes(high_word(n) as nat, 4) + be_bytes(low_word(n) as nat, 4) == be_bytes(n as nat, 8),
{
    reveal_with_fuel(capacity, 5);
    let (hi, lo) = (high_word(n) as nat, low_word(n) as nat);
    assert(capacity(4) == 0x1_0000_0000);
    assert(n as nat == hi * 0x1_0000_0000 + lo);
    bytes_concat(hi, lo, 4, 4);
}

/// The bytes of the words of a block, each most significant byte first.
pub open spec fn spelled(words: Seq<u32>) -> Seq<u8>
    decreases words.len(),
{
    if words.len() == 0 {
        Seq::empty()
    } else {
        spelled(words.drop_last()) + be_bytes(words.last() as nat, 4)
    }
}

/// The device hashes what the processor hashes: the first ten words of a parameter
/// block spell the header of the job, and the next two spell the nonce at which the
/// batch starts.
pub proof fn device_hashes_the_same_message(params: GpuParams, job: MiningJob, base: u64)
    requires
        is_batch(params, job, base),
    ensures
        spelled(params.words().take(12)) == job.message(base),
{
    let w = params.words();
    spelled_hash(params, job, 8);
    words_spell(job.height);
    words_spell(base);
    assert(w.take(8) =~= params.ph@.take(8));
    assert(w.take(12).drop_last() =~= w.take(11));
    assert(w.take(11).drop_last() =~= w.take(10));
    assert(w.take(10).drop_last() =~= w.take(9));
    assert(w.take(9).drop_last() =~= w.take(8));
    assert(job.previous_hash@.take(32) =~= job.previous_hash@);
    assert(w.take(9).last() == params.height_hi);
    assert(w.take(10).last() == params.height_lo);
    assert(w.take(11).last() == params.nonce_base_hi);
    assert(w.take(12).last() == params.nonce_base_lo);
    let hash = job.previous_hash@;
    let (a, b) = (be_bytes(params.height_hi as nat, 4), be_bytes(params.height_lo as nat, 4));
    let (c, d) = (be_bytes(params.nonce_base_hi as nat, 4), be_bytes(params.nonce_base_lo as nat, 4));
    assert(spelled(w.take(9)) == hash + a);
    assert(spelled(w.take(10)) == hash + a + b);
    assert(spelled(w.take(11)) == hash + a + b + c);
    assert(spelled(w.take(12)) == hash + a + b + c + d);
    assert(hash + a + b + c + d =~= hash + (a + b) + (c + d));
}

/// The first `n` words of the hash part spell as many quarters of the hash.
proof fn spelled_hash(params: GpuParams, job: MiningJob, n: int)
    requires
        0 <= n <= 8,
        forall|i: int|
            0 <= i < 8 ==> #[trigger] params.ph@[i] as nat == be_value(
                job.previous_hash@.subrange(4 * i, 4 * i + 4),
            ),
    ensures
        spelled(params.ph@.take(n)) == job.previous_hash@.take(4 * n),
    decreases n,
{
    if n > 0 {
        spelled_hash(params, job, n - 1);
        assert(params.ph@.take(n).drop_last() =~= params.ph@.take(n - 1));
        let quarter = job.previous_hash@.subrange(4 * (n - 1), 4 * n);
        assert(params.ph@[n - 1] as nat == be_value(quarter));
        value_spells_bytes(quarter);
        assert(job.previous_hash@.take(4 * n) =~= job.previous_hash@.take(4 * (n - 1)) + quarter);
    } else {
        assert(spelled(params.ph@.take(0)) =~= job.previous_hash@.take(0));
    }
}

/// What a parameter block holds, word by word: the previous hash in eight words, each
/// with the most significant byte first; the height and the nonce at which the batch
/// starts, each with its upper half first; 64 nonces for each thread; the target for a
/// block and that for a share; and 1048576 threads.
pub proof fn what_a_parameter_block_holds(params: GpuParams, job: MiningJob, base: u64)
    requires
        is_batch(params, job, base),
    ensures
        ({
            let w = params.words();
            let hash = job.previous_hash@;
            &&& w.len() == 16
            &&& forall|i: int|
                0 <= i < 8 ==> #[trigger] w[i] == 0x100_0000 * hash[4 * i] + 0x1_0000 * hash[4 * i
                    + 1] + 0x100 * hash[4 * i + 2] + hash[4 * i + 3]
            &&& 0x1_0000_0000 * w[8] + w[9] == job.height
            &&& 0x1_0000_0000 * w[10] + w[11] == base
            &&& w[12] == 64
            &&& w[13] == job.difficulty_bits
            &&& w[14] == (match job.share_difficulty_bits {
                Some(bits) => bits,
                None => 0xffff_ffff,
            })
            &&& w[15] == 1_048_576
        }),
{
    let w = params.words();
    let hash = job.previous_hash@;
    assert forall|i: int| 0 <= i < 8 implies #[trigger] w[i] == 0x100_0000 * hash[4 * i] + 0x1_0000
        * hash[4 * i + 1] + 0x100 * hash[4 * i + 2] + hash[4 * i + 3] by {
        assert(w[i] == params.ph@[i]);
        crate::bytes::number_of_four_bytes(hash.subrange(4 * i, 4 * i + 4));
    }
}

/// Words in memory take four bytes each, one word after the other. The byte that counts
/// least comes first on one kind of machine, and last on the other.
pub proof fn words_take_four_bytes(words: Seq<u32>, i: int)
    requires
        0 <= i < words.len(),
    ensures
        little_endian(words).len() == 4 * words.len(),
        big_endian(words).len() == 4 * words.len(),
        little_endian(words)[4 * i] + 0x100 * little_endian(words)[4 * i + 1] + 0x1_0000
            * little_endian(words)[4 * i + 2] + 0x100_0000 * little_endian(words)[4 * i + 3]
            == words[i],
        big_endian(words)[4 * i + 3] + 0x100 * big_endian(words)[4 * i + 2] + 0x1_0000
            * big_endian(words)[4 * i + 1] + 0x100_0000 * big_endian(words)[4 * i] == words[i],
{
}

/// What is done after a batch. All of its 67108864 hashes are counted. A nonce that was
/// reported as a block comes out as one exactly if its hash starts with enough zero
/// bits, and then the search stays where it is. Otherwise the search moves on by
/// the nonces of a batch, past the last 64-bit nonce to the first; a nonce that was
/// reported as a share comes out as one exactly if there is a channel for shares, its hash
/// reaches the share target and it makes no block; and below full power the search
/// rests, so that it works for as many hundredths of the time as the power level says.
pub proof fn what_is_done_after_a_batch(s: GpuSearch, answer: Option<GpuFound>, percent: u32)
    ensures
        ({
            let step = s.next_step(answer, percent);
            let next = s.after(step);
            let power: int = if percent == 0 {
                1
            } else if percent > 100 {
                100
            } else {
                percent as int
            };
            &&& step.hashes == 67_108_864
            &&& next.job == s.job && next.share_channel == s.share_channel
            &&& match answer {
                Some(found) => {
                    let nonce = (0x1_0000_0000 * found.nonce_hi + found.nonce_lo) as u64;
                    let share = (0x1_0000_0000 * found.share_nonce_hi
                        + found.share_nonce_lo) as u64;
                    let block = found.flag != 0 && s.job.zero_bits(nonce) >= s.job.difficulty_bits;
                    let reported = !block && found.share_flag != 0 && s.share_channel;
                    &&& step.verdict.solved == (if block {
                        Some(nonce)
                    } else {
                        None
                    })
                    &&& step.verdict.false_block == (found.flag != 0 && !block)
                    &&& step.verdict.share == (if reported && s.job.zero_bits(share)
                        < s.job.difficulty_bits && (s.job.share_difficulty_bits matches Some(bits)
                        && s.job.zero_bits(share) >= bits) {
                        Some(share)
                    } else {
                        None
                    })
                    &&& step.verdict.false_share == (reported && !(
                    s.job.share_difficulty_bits matches Some(bits) && s.job.zero_bits(share)
                        >= bits))
                },
                None => {
                    &&& step.verdict.solved is None && step.verdict.share is None
                    &&& !step.verdict.false_block && !step.verdict.false_share
                },
            }
            &&& step.verdict.solved is Some ==> next.base == s.base && step.rest is None
            &&& step.verdict.solved is None ==> {
                &&& next.base == (if s.base + 67_108_864 <= u64::MAX {
                    s.base + 67_108_864
                } else {
                    s.base + 67_108_864 - 0x1_0000_0000_0000_0000
                })
                &&& step.rest is None <==> power == 100
                &&& step.rest matches Some(rest) ==> rest.1 == power && rest.0 + rest.1 == 100
            }
        }),
{
    if let Some(found) = answer {
        share_target_unreachable(s.job, found.share_nonce());
    }
}

} // verus!
