use piko_miner::gpu::{
    batch_params, candidate_zero_bits, cleared_found_bytes, first_batch, found_from_bytes,
    is_usable, judge_batch, next_batch, params_bytes, pick_adapter, rest_after_batch,
    verify_candidate, weigh_batch, AdapterChoice, BatchVerdict, GpuFound, GpuSearch, BATCH_HASHES,
    ITERATIONS_PER_BATCH, NUM_WORKGROUPS, SHARE_DIFFICULTY_DISABLED, TOTAL_THREADS, WORKGROUP_SIZE,
};
use piko_miner::gpu::DeviceKind::{Cpu, DiscreteGpu, IntegratedGpu, Other, VirtualGpu};
use piko_miner::miner::{candidate_message, job_header, MiningJob, OFFSET_BOUND};
use sha2::Digest;

fn job(difficulty_bits: u32, share_difficulty_bits: Option<u32>) -> MiningJob {
    MiningJob {
        previous_hash: [0x42; 32],
        height: 123_456,
        difficulty_bits,
        share_difficulty_bits,
    }
}

fn found(flag: u32, nonce: u64, share_flag: u32, share_nonce: u64) -> GpuFound {
    GpuFound {
        flag,
        nonce_hi: (nonce >> 32) as u32,
        nonce_lo: nonce as u32,
        share_flag,
        share_nonce_hi: (share_nonce >> 32) as u32,
        share_nonce_lo: share_nonce as u32,
    }
}

fn found_bytes(f: &GpuFound) -> Vec<u8> {
    [f.flag, f.nonce_hi, f.nonce_lo, f.share_flag, f.share_nonce_hi, f.share_nonce_lo]
        .iter()
        .flat_map(|w| w.to_ne_bytes())
        .collect()
}

fn words(bytes: &[u8]) -> Vec<u32> {
    bytes.chunks(4).map(|c| u32::from_ne_bytes(c.try_into().unwrap())).collect()
}

// Stands in for the device: reads a parameter block, hashes what it describes with the
// `sha2` crate itself, and reports the first nonce that clears the target.
fn device(params: &[u8]) -> Option<Vec<u8>> {
    let w = words(params);
    let mut message: Vec<u8> = w[..10].iter().flat_map(|x| x.to_be_bytes()).collect();
    message.resize(48, 0);
    let base = ((w[10] as u64) << 32) | w[11] as u64;
    for k in 0..(w[12] as u64 * w[15] as u64) {
        let nonce = base.wrapping_add(k);
        message[40..].copy_from_slice(&nonce.to_be_bytes());
        let digest = sha2::Sha256::digest(&message);
        let mut zeros = 0;
        for byte in digest.iter() {
            zeros += byte.leading_zeros();
            if *byte != 0 {
                break;
            }
        }
        if zeros >= w[13] {
            return Some(found_bytes(&found(1, nonce, 0, 0)));
        }
    }
    None
}

// Mines an easy job on the stand-in device and confirms that the winning nonce's hash
// satisfies the difficulty target, so that the parameter block and the 48-byte message
// layout match the processor's path bit for bit.
#[test]
fn gpu_search_matches_cpu_sha256() {
    let job = MiningJob {
        previous_hash: [0x42; 32],
        height: 123_456,
        difficulty_bits: 16,
        share_difficulty_bits: None,
    };
    let mut search = GpuSearch::new(&job, false);
    let nonce = loop {
        let answer = device(&params_bytes(&search.params())).map(|bytes| found_from_bytes(&bytes));
        if let Some(nonce) = search.finish_batch(answer, 100).verdict.solved {
            break nonce;
        }
    };
    assert!(
        verify_candidate(&job, nonce),
        "GPU-found nonce {nonce} failed independent CPU SHA-256 verification -- shader/header-layout mismatch"
    );
}

#[test]
fn candidates_are_hashed_again() {
    let easy = job(16, None);
    assert_eq!(candidate_zero_bits(&easy, 4409), 16);
    assert_eq!(candidate_zero_bits(&easy, 0), 0);
    assert!(verify_candidate(&easy, 4409));
    assert!(!verify_candidate(&easy, 379));
    assert!(verify_candidate(&job(13, None), 379));
    assert!(verify_candidate(&job(0, None), 0));
    assert!(!verify_candidate(&job(u32::MAX, None), 4409));
}

#[test]
fn params_hold_the_job() {
    let mut j = job(20, Some(12));
    for (i, byte) in j.previous_hash.iter_mut().enumerate() {
        *byte = i as u8;
    }
    let params = batch_params(&j, 0x0011_2233_4455_6677);
    assert_eq!(params.ph[0], 0x0001_0203);
    assert_eq!(params.ph[7], 0x1c1d_1e1f);
    assert_eq!((params.height_hi, params.height_lo), (0, 123_456));
    assert_eq!((params.nonce_base_hi, params.nonce_base_lo), (0x0011_2233, 0x4455_6677));
    assert_eq!(params.iterations, ITERATIONS_PER_BATCH);
    assert_eq!(params.total_threads, TOTAL_THREADS);
    assert_eq!((params.difficulty_bits, params.share_difficulty_bits), (20, 12));
    assert_eq!(batch_params(&job(20, None), 0).share_difficulty_bits, SHARE_DIFFICULTY_DISABLED);
}

#[test]
fn params_spell_the_message() {
    let j = job(20, None);
    let base = 0x0102_0304_0506_0708;
    let w = words(&params_bytes(&batch_params(&j, base)));
    assert_eq!(w.len(), 16);
    let spelled: Vec<u8> = w[..12].iter().flat_map(|x| x.to_be_bytes()).collect();
    assert_eq!(spelled, candidate_message(&job_header(&j), base));
    assert_eq!(&w[12..], &[64, 20, u32::MAX, 1_048_576]);
}

#[test]
fn result_block_is_read_from_memory() {
    let f = found(1, 0xaaaa_bbbb_cccc_dddd, 7, 0x1111_2222_3333_4444);
    assert_eq!(found_from_bytes(&found_bytes(&f)), f);
    assert_eq!(found_from_bytes(&cleared_found_bytes()), found(0, 0, 0, 0));
    let mut shifted = vec![9u8];
    shifted.extend(found_bytes(&f));
    assert_eq!(found_from_bytes(&shifted[1..]), f);
}

#[test]
fn false_reports_are_discarded() {
    let j = job(16, Some(8));
    let nothing = BatchVerdict { solved: None, false_block: false, share: None, false_share: false };
    assert_eq!(judge_batch(&j, &found(0, 4409, 0, 5), true), nothing);
    assert_eq!(
        judge_batch(&j, &found(1, 4409, 1, 5), true),
        BatchVerdict { solved: Some(4409), ..nothing }
    );
    assert_eq!(
        judge_batch(&j, &found(1, 4408, 1, 5), true),
        BatchVerdict { false_block: true, share: Some(5), ..nothing }
    );
    assert_eq!(
        judge_batch(&j, &found(0, 0, 1, 6), true),
        BatchVerdict { false_share: true, ..nothing }
    );
    assert_eq!(judge_batch(&j, &found(0, 0, 1, 5), false), nothing);
    assert_eq!(
        judge_batch(&job(16, None), &found(0, 0, 1, 4409), true),
        BatchVerdict { false_share: true, ..nothing }
    );
}

#[test]
fn batches_are_weighed_by_zero_bits() {
    let f = found(1, 0x1_0000_0002, 1, 3);
    let verdict = weigh_batch(&f, 16, 9, 16, 8, true);
    assert_eq!(verdict.solved, Some(0x1_0000_0002));
    assert_eq!(verdict.share, None);
    let verdict = weigh_batch(&f, 15, 9, 16, 8, true);
    assert_eq!(verdict.solved, None);
    assert!(verdict.false_block);
    assert_eq!(verdict.share, Some(3));
    assert!(weigh_batch(&f, 15, 7, 16, 8, true).false_share);
    assert!(!weigh_batch(&f, 15, 7, 16, 8, false).false_share);
}

#[test]
fn batches_follow_each_other() {
    assert_eq!(TOTAL_THREADS, WORKGROUP_SIZE * NUM_WORKGROUPS);
    assert_eq!(BATCH_HASHES, TOTAL_THREADS as u64 * ITERATIONS_PER_BATCH as u64);
    assert_eq!(next_batch(5), 67_108_869);
    assert_eq!(next_batch(u64::MAX), 67_108_863);
    assert!(first_batch() < OFFSET_BOUND);
    assert_ne!(first_batch(), first_batch());
}

#[test]
fn discrete_devices_come_first() {
    assert_eq!(pick_adapter(&vec![]), AdapterChoice::AskSystem);
    assert_eq!(pick_adapter(&vec![Cpu, Cpu]), AdapterChoice::AskSystem);
    assert_eq!(pick_adapter(&vec![Cpu, VirtualGpu, Other]), AdapterChoice::Listed(1));
    assert_eq!(
        pick_adapter(&vec![Cpu, IntegratedGpu, DiscreteGpu, DiscreteGpu]),
        AdapterChoice::Listed(2)
    );
    assert!(!is_usable(Cpu));
    assert!(is_usable(Other) && is_usable(IntegratedGpu));
}

#[test]
fn rest_grows_as_power_falls() {
    assert_eq!(rest_after_batch(100), None);
    assert_eq!(rest_after_batch(1000), None);
    assert_eq!(rest_after_batch(50), Some((50, 50)));
    assert_eq!(rest_after_batch(25), Some((75, 25)));
    assert_eq!(rest_after_batch(0), Some((99, 1)));
}

#[test]
fn searches_go_from_batch_to_batch() {
    let mut search = GpuSearch::new(&job(16, Some(8)), true);
    let first = search.base;
    assert!(first < OFFSET_BOUND);
    let mut hashes = 0;
    for (answer, power) in [
        (None, 100),
        (Some(found(0, 0, 0, 0)), 100),
        (Some(found(1, 4408, 1, 5)), 25),
        (Some(found(1, 4409, 1, 5)), 25),
    ] {
        let base = search.base;
        let params = search.params();
        assert_eq!((params.nonce_base_hi, params.nonce_base_lo), ((base >> 32) as u32, base as u32));
        let step = search.finish_batch(answer, power);
        hashes += step.hashes;
        match (answer, power) {
            (Some(f), 25) if f.nonce_lo == 4409 => {
                assert_eq!((step.verdict.solved, step.verdict.share), (Some(4409), None));
                assert_eq!(step.rest, None);
                assert_eq!(search.base, base);
            }
            (Some(_), 25) => {
                assert!(step.verdict.false_block);
                assert_eq!(step.verdict.share, Some(5));
                assert_eq!(step.rest, Some((75, 25)));
                assert_eq!(search.base, next_batch(base));
            }
            _ => {
                assert_eq!((step.verdict.solved, step.verdict.share), (None, None));
                assert!(!step.verdict.false_block && !step.verdict.false_share);
                assert_eq!(step.rest, None);
                assert_eq!(search.base, next_batch(base));
            }
        }
    }
    assert_eq!(hashes, 4 * BATCH_HASHES);
    assert_eq!(search.base, first + 3 * BATCH_HASHES);
}

#[test]
fn a_block_is_not_sent_as_a_share() {
    let nothing = BatchVerdict { solved: None, false_block: false, share: None, false_share: false };
    // Nonce 4409 has 16 zero bits, and clears both targets.
    assert_eq!(judge_batch(&job(16, Some(8)), &found(0, 0, 1, 4409), true), nothing);
    assert_eq!(
        judge_batch(&job(17, Some(8)), &found(0, 0, 1, 4409), true),
        BatchVerdict { share: Some(4409), ..nothing }
    );
    let f = found(0, 0, 1, 3);
    assert_eq!(weigh_batch(&f, 0, 16, 16, 8, true), nothing);
    assert_eq!(weigh_batch(&f, 0, 15, 16, 8, true).share, Some(3));
    let mut search = GpuSearch::new(&job(16, Some(8)), true);
    let base = search.base;
    assert_eq!(search.finish_batch(Some(found(0, 0, 1, 4409)), 100).verdict, nothing);
    assert_eq!(search.base, next_batch(base));
}

#[test]
fn a_stopped_search_runs_no_batch() {
    let search = GpuSearch::new(&job(16, None), false);
    assert!(search.params_unless(true).is_none());
    let params = search.params_unless(false).unwrap();
    assert_eq!(params_bytes(&params), params_bytes(&batch_params(&search.job, search.base)));
}
