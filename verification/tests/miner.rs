use piko_miner::difficulty::leading_zero_bits;
use piko_miner::miner::{
    candidate_message, clamp_power, hash_zero_bits, height_to_bytes8, job_header, judge_attempt,
    nonce_offset, nonce_to_bytes8, plan_workers, start_mining, Attempt, MiningJob, Pace, Worker,
    OFFSET_BOUND, REPORT_BATCH, WINDOW_NANOS,
};
use sha2::Digest;
use std::collections::HashSet;

fn job(difficulty_bits: u32, share_difficulty_bits: Option<u32>) -> MiningJob {
    MiningJob {
        previous_hash: [0x42; 32],
        height: 123_456,
        difficulty_bits,
        share_difficulty_bits,
    }
}

fn worker_at(job: &MiningJob, nonce: u64) -> Worker {
    plan_workers(job, 1, nonce)[0]
}

#[test]
fn nonce_bytes_are_big_endian() {
    assert_eq!(nonce_to_bytes8(0x0102_0304_0506_0708), [1, 2, 3, 4, 5, 6, 7, 8]);
    assert_eq!(nonce_to_bytes8(u64::MAX), [255; 8]);
    assert_eq!(nonce_to_bytes8(0), [0; 8]);
    for n in [1u64, 255, 256, 65_535, 1 << 32, 123_456_789_012_345] {
        assert_eq!(nonce_to_bytes8(n), n.to_be_bytes());
    }
}

#[test]
fn height_bytes_are_big_endian() {
    assert_eq!(height_to_bytes8(123_456), [0, 0, 0, 0, 0, 1, 0xe2, 0x40]);
}

#[test]
fn leading_zero_bits_of_small_strings() {
    assert_eq!(leading_zero_bits(&[]), 0);
    assert_eq!(leading_zero_bits(&[0x80]), 0);
    assert_eq!(leading_zero_bits(&[0x01]), 7);
    assert_eq!(leading_zero_bits(&[0x00]), 8);
    assert_eq!(leading_zero_bits(&[0x00, 0x10, 0xff]), 11);
    assert_eq!(leading_zero_bits(&[0x00, 0x00, 0x00, 0xff]), 24);
    assert_eq!(leading_zero_bits(&[0u8; 32]), 256);
}

#[test]
fn leading_zero_bits_counts_to_the_first_set_bit() {
    for k in 0..256usize {
        let mut hash = [0u8; 32];
        hash[k / 8] |= 0x80 >> (k % 8);
        hash[31] |= 1;
        assert_eq!(leading_zero_bits(&hash), k as u32);
    }
}

#[test]
fn message_is_hash_height_nonce() {
    let header = job_header(&job(16, None));
    assert_eq!(&header[..32], &[0x42; 32]);
    assert_eq!(&header[32..], &123_456u64.to_be_bytes());
    let message = candidate_message(&header, 77);
    assert_eq!(&message[..40], &header);
    assert_eq!(&message[40..], &77u64.to_be_bytes());
}

#[test]
fn hash_zero_bits_is_that_of_sha256() {
    let header = job_header(&job(16, None));
    assert_eq!(hash_zero_bits(&header, 0), 0);
    assert_eq!(hash_zero_bits(&header, 2), 3);
    assert_eq!(hash_zero_bits(&header, 5), 8);
    assert_eq!(hash_zero_bits(&header, 379), 13);
    assert_eq!(hash_zero_bits(&header, 4409), 16);
    for nonce in 0..200u64 {
        let digest = sha2::Sha256::digest(candidate_message(&header, nonce));
        assert_eq!(hash_zero_bits(&header, nonce), leading_zero_bits(&digest));
    }
}

#[test]
fn attempts_are_judged_by_both_targets() {
    assert_eq!(judge_attempt(9, 16, 16, None), Attempt::Solved(9));
    assert_eq!(judge_attempt(9, 15, 16, None), Attempt::Miss);
    assert_eq!(judge_attempt(9, 15, 16, Some(15)), Attempt::Share(9));
    assert_eq!(judge_attempt(9, 14, 16, Some(15)), Attempt::Miss);
    assert_eq!(judge_attempt(9, 16, 16, Some(15)), Attempt::Solved(9));
    assert_eq!(judge_attempt(9, 0, 0, None), Attempt::Solved(9));
}

#[test]
fn worker_finds_the_first_solution() {
    let mut worker = worker_at(&job(16, None), 0);
    let mut reported = 0;
    let solved = loop {
        match worker.attempt() {
            Attempt::Solved(nonce) => break nonce,
            Attempt::Share(_) => panic!("no pool, no share"),
            Attempt::Miss => {}
        }
        match worker.pace(100, 0) {
            Pace::Continue => {}
            Pace::Report(n) => reported += n,
            Pace::Rest { .. } => panic!("full power never rests"),
        }
    };
    assert_eq!(solved, 4409);
    assert_eq!(worker.nonce, 4409);
    assert_eq!(reported, 4000);
    assert_eq!(reported + worker.local_attempts, 4410);
}

#[test]
fn worker_reports_shares_and_goes_on() {
    let mut worker = worker_at(&job(12, Some(3)), 0);
    let mut shares = Vec::new();
    let solved = loop {
        match worker.attempt() {
            Attempt::Solved(nonce) => break nonce,
            Attempt::Share(nonce) => shares.push(nonce),
            Attempt::Miss => {}
        }
        worker.pace(100, 0);
    };
    assert_eq!(solved, 379);
    assert_eq!(&shares[..5], &[2, 5, 8, 11, 13]);
}

#[test]
fn worker_steps_by_its_stride() {
    let mut worker = plan_workers(&job(256, None), 3, 10)[2];
    assert_eq!(worker.nonce, 12);
    worker.attempt();
    assert_eq!(worker.nonce, 15);
    worker.attempt();
    assert_eq!(worker.nonce, 18);
    let mut last = worker_at(&job(256, None), u64::MAX);
    last.attempt();
    assert_eq!(last.nonce, 0);
}

#[test]
fn workers_share_out_the_nonces() {
    let team = plan_workers(&job(256, None), 7, 1000);
    assert_eq!(team.len(), 7);
    let mut seen = HashSet::new();
    for mut worker in team {
        for _ in 0..11 {
            assert!(seen.insert(worker.nonce));
            worker.attempt();
        }
    }
    assert_eq!(seen.len(), 77);
    assert!((1000..1077).all(|n| seen.contains(&n)));
}

#[test]
fn no_threads_no_workers() {
    assert!(plan_workers(&job(1, None), 0, 5).is_empty());
}

#[test]
fn offset_keeps_56_bits() {
    assert_eq!(nonce_offset([0xff; 8]), OFFSET_BOUND - 1);
    assert_eq!(nonce_offset([0xab, 0, 0, 0, 0, 0, 0, 1]), 1);
    assert_eq!(nonce_offset([0, 1, 2, 3, 4, 5, 6, 7]), 0x0001_0203_0405_0607);
}

#[test]
fn searches_start_at_random_offsets() {
    let a = start_mining(&job(16, Some(8)), 4);
    let b = start_mining(&job(16, Some(8)), 4);
    assert_eq!(a.len(), 4);
    for team in [&a, &b] {
        assert!(team[0].nonce < OFFSET_BOUND);
        for (i, worker) in team.iter().enumerate() {
            assert_eq!(worker.nonce, team[0].nonce + i as u64);
            assert_eq!(worker.stride, 4);
            assert_eq!(worker.share_difficulty_bits, Some(8));
        }
    }
    assert_ne!(a[0].nonce, b[0].nonce);
}

#[test]
fn power_is_clamped() {
    assert_eq!(clamp_power(0), 1);
    assert_eq!(clamp_power(1), 1);
    assert_eq!(clamp_power(55), 55);
    assert_eq!(clamp_power(100), 100);
    assert_eq!(clamp_power(u32::MAX), 100);
}

#[test]
fn duty_cycle_follows_the_power() {
    let mut worker = worker_at(&job(256, None), 0);
    worker.attempt();
    assert_eq!(worker.pace(25, 49_999_999), Pace::Continue);
    assert_eq!(worker.pace(25, 50_000_000), Pace::Rest { attempts: 1, nanos: 150_000_000 });
    assert_eq!(worker.local_attempts, 0);
    assert_eq!(worker.pace(0, 2_000_000), Pace::Rest { attempts: 0, nanos: 198_000_000 });
    assert_eq!(worker.pace(100, u128::MAX), Pace::Continue);
    assert_eq!(worker.pace(101, u128::MAX), Pace::Continue);
    for percent in 1..100u32 {
        match worker.pace(percent, WINDOW_NANOS as u128) {
            Pace::Rest { nanos, .. } => {
                let window = std::time::Duration::from_millis(200);
                let rest = window.mul_f64(1.0 - percent as f64 / 100.0);
                assert_eq!(nanos as u128, rest.as_nanos());
            }
            other => panic!("{other:?}"),
        }
    }
}

#[test]
fn full_batches_are_reported() {
    let mut worker = worker_at(&job(256, None), 0);
    worker.local_attempts = REPORT_BATCH - 1;
    assert_eq!(worker.pace(100, 0), Pace::Continue);
    worker.attempt();
    assert_eq!(worker.pace(100, 0), Pace::Report(2000));
    assert_eq!(worker.local_attempts, 0);
}

#[test]
fn a_stopped_worker_hashes_no_more() {
    let mut worker = worker_at(&job(256, None), 7);
    assert_eq!(worker.attempt_unless(false), Some(Attempt::Miss));
    assert_eq!((worker.nonce, worker.local_attempts), (8, 1));
    assert_eq!(worker.attempt_unless(true), None);
    assert_eq!((worker.nonce, worker.local_attempts), (8, 1));
    let mut lucky = worker_at(&job(16, None), 4409);
    assert_eq!(lucky.attempt_unless(true), None);
    assert_eq!(lucky.attempt_unless(false), Some(Attempt::Solved(4409)));
}
