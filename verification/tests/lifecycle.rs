use confidential_coprocessor::ledger::Ledger;
use confidential_coprocessor::lending::{build_liq_eligibility_ir, build_withdraw_ir};
use confidential_coprocessor::records::{ErrorCode, JobStatus};

fn key(tag: u8) -> [u8; 32] {
    [tag; 32]
}

fn ready_ledger(window: u64) -> Ledger {
    let mut l = Ledger::new();
    l.initialize_config(&key(1), &key(2), window).unwrap();
    l
}

#[test]
fn initialize_config_sets_fields_and_is_once_only() {
    let mut l = Ledger::new();
    assert!(l.initialize_config(&key(1), &key(2), 7).is_ok());
    let cfg = l.config.unwrap();
    assert_eq!(cfg.authority, key(1));
    assert_eq!(cfg.executor, key(2));
    assert_eq!(cfg.challenge_window_slots, 7);
    assert_eq!(
        l.initialize_config(&key(1), &key(2), 7),
        Err(ErrorCode::AccountAlreadyInitialized)
    );
}

#[test]
fn second_submit_with_same_pair_fails() {
    let mut l = ready_ledger(5);
    let ir = build_withdraw_ir();
    let first = l.submit_job_inline(&key(5), &key(3), None, 0, 300, &key(4), &ir, 10);
    assert!(first.is_ok());
    let second = l.submit_job_inline(&key(5), &key(3), None, 0, 300, &key(4), &ir, 11);
    assert_eq!(second.unwrap_err(), ErrorCode::AccountAlreadyInitialized);
    assert_eq!(l.jobs.len(), 1);
    // a different commitment or submitter still goes through
    assert!(l.submit_job_inline(&key(5), &key(6), None, 0, 300, &key(4), &ir, 12).is_ok());
    assert!(l.submit_job_inline(&key(7), &key(3), None, 0, 300, &key(4), &ir, 13).is_ok());
}

#[test]
fn oversized_descriptor_is_rejected() {
    let mut l = ready_ledger(5);
    let big = vec![0u8; 2049];
    assert_eq!(
        l.submit_job_inline(&key(5), &key(3), None, 0, 300, &key(4), &big, 10).unwrap_err(),
        ErrorCode::IrTooLarge
    );
    let exact = vec![0u8; 2048];
    assert!(l.submit_job_inline(&key(5), &key(3), None, 0, 300, &key(4), &exact, 10).is_ok());
}

#[test]
fn status_sequence_is_a_prefix_of_the_lifecycle_order() {
    let mut l = ready_ledger(5);
    let ir = build_withdraw_ir();
    let ev = l.submit_job_inline(&key(5), &key(3), None, 0, 300, &key(4), &ir, 10).unwrap();
    let job_addr = ev.job;
    assert_eq!(l.jobs[0].job.status, JobStatus::Submitted);

    // finalize cannot skip the posted stage
    assert_eq!(l.finalize(&job_addr, 100).unwrap_err(), ErrorCode::InvalidJobStatus);
    assert_eq!(l.jobs[0].job.status, JobStatus::Submitted);

    let posted = l
        .post_result(&key(2), &job_addr, &key(9), &ev.expected_code_digest, None, None, 20)
        .unwrap();
    assert_eq!(posted.posted_slot, 20);
    assert_eq!(l.jobs[0].job.status, JobStatus::Posted);
    assert_eq!(l.jobs[0].job.posted_slot, Some(20));
    assert_eq!(l.jobs[0].job.result_commitment, Some(key(9)));

    // posting is write-once: the transition cannot run again
    assert_eq!(
        l.post_result(&key(2), &job_addr, &key(9), &ev.expected_code_digest, None, None, 21)
            .unwrap_err(),
        ErrorCode::InvalidJobStatus
    );

    assert!(l.finalize(&job_addr, 25).is_ok());
    assert_eq!(l.jobs[0].job.status, JobStatus::Finalized);
    // no transition leaves the final state
    assert_eq!(l.finalize(&job_addr, 30).unwrap_err(), ErrorCode::InvalidJobStatus);
    // the fields fixed at submission never changed
    assert_eq!(l.jobs[0].job.commitment, key(3));
    assert_eq!(l.jobs[0].job.context_data, key(4));
    assert_eq!(l.jobs[0].job.submitter, key(5));
    assert_eq!(l.jobs[0].job.function_id, 300);
}

#[test]
fn post_requires_the_configured_executor_and_the_stored_digest() {
    let mut l = ready_ledger(5);
    let ir = build_withdraw_ir();
    let ev = l.submit_job_inline(&key(5), &key(3), None, 0, 300, &key(4), &ir, 10).unwrap();
    assert_eq!(
        l.post_result(&key(8), &ev.job, &key(9), &ev.expected_code_digest, None, None, 20)
            .unwrap_err(),
        ErrorCode::UnauthorizedExecutor
    );
    let mut wrong_digest = ev.expected_code_digest;
    wrong_digest[0] ^= 1;
    assert_eq!(
        l.post_result(&key(2), &ev.job, &key(9), &wrong_digest, None, None, 20).unwrap_err(),
        ErrorCode::CodeDigestMismatch
    );
    assert_eq!(
        l.post_result(&key(2), &key(31), &key(9), &ev.expected_code_digest, None, None, 20)
            .unwrap_err(),
        ErrorCode::InvalidPDA
    );
    assert_eq!(l.jobs[0].job.status, JobStatus::Submitted);
}

#[test]
fn challenge_window_boundaries_hold_for_each_window() {
    for window in [0u64, 1, 100] {
        let mut l = ready_ledger(window);
        let ir = build_withdraw_ir();
        let ev = l.submit_job_inline(&key(5), &key(3), None, 0, 300, &key(4), &ir, 10).unwrap();
        let posted_slot = 20u64;
        l.post_result(&key(2), &ev.job, &key(9), &ev.expected_code_digest, None, None, posted_slot)
            .unwrap();
        if window >= 2 {
            // strictly inside the window per the boundary statement
            assert_eq!(
                l.finalize(&ev.job, posted_slot + window - 2).unwrap_err(),
                ErrorCode::ChallengeWindowNotPassed,
                "window {window}"
            );
        }
        if window >= 1 {
            assert_eq!(
                l.finalize(&ev.job, posted_slot + window - 1).unwrap_err(),
                ErrorCode::ChallengeWindowNotPassed,
                "window {window}"
            );
        }
        assert!(l.finalize(&ev.job, posted_slot + window).is_ok(), "window {window}");
    }
}

#[test]
fn oracle_bound_post_needs_a_matching_snapshot() {
    let mut l = ready_ledger(5);
    let snap_ev = l
        .record_oracle_snapshot(&key(2), &key(11), &key(11), &key(12), 42_000_000_000, 5, 100)
        .unwrap();
    let ir = build_liq_eligibility_ir(11_000);
    let ev = l.submit_job_inline(&key(5), &key(3), None, 0, 400, &key(4), &ir, 101).unwrap();

    // the snapshot reference is mandatory for the liquidation-eligibility id
    assert_eq!(
        l.post_result(&key(2), &ev.job, &key(9), &ev.expected_code_digest, None, None, 102)
            .unwrap_err(),
        ErrorCode::MissingSnapshotHash
    );
    assert_eq!(
        l.post_result(
            &key(2),
            &ev.job,
            &key(9),
            &ev.expected_code_digest,
            Some(snap_ev.ptr_hash),
            None,
            102
        )
        .unwrap_err(),
        ErrorCode::MissingSnapshot
    );
    assert_eq!(
        l.post_result(
            &key(2),
            &ev.job,
            &key(9),
            &ev.expected_code_digest,
            Some(snap_ev.ptr_hash),
            Some(key(29)),
            102
        )
        .unwrap_err(),
        ErrorCode::MissingSnapshot
    );
    // a single flipped bit in the supplied pointer hash is refused
    let mut tampered = snap_ev.ptr_hash;
    tampered[7] ^= 0x01;
    assert_eq!(
        l.post_result(
            &key(2),
            &ev.job,
            &key(9),
            &ev.expected_code_digest,
            Some(tampered),
            Some(snap_ev.snapshot),
            102
        )
        .unwrap_err(),
        ErrorCode::SnapshotHashMismatch
    );
    assert!(l
        .post_result(
            &key(2),
            &ev.job,
            &key(9),
            &ev.expected_code_digest,
            Some(snap_ev.ptr_hash),
            Some(snap_ev.snapshot),
            102
        )
        .is_ok());
}

#[test]
fn snapshot_recording_is_guarded_and_unique() {
    let mut l = ready_ledger(5);
    assert_eq!(
        l.record_oracle_snapshot(&key(8), &key(11), &key(11), &key(12), 1, 2, 3).unwrap_err(),
        ErrorCode::UnauthorizedExecutor
    );
    assert_eq!(
        l.record_oracle_snapshot(&key(2), &key(11), &key(13), &key(12), 1, 2, 3).unwrap_err(),
        ErrorCode::BadOracleProgram
    );
    assert!(l.record_oracle_snapshot(&key(2), &key(11), &key(11), &key(12), 1, 2, 3).is_ok());
    assert_eq!(
        l.record_oracle_snapshot(&key(2), &key(11), &key(11), &key(12), 9, 9, 3).unwrap_err(),
        ErrorCode::AccountAlreadyInitialized
    );
    // a different observed tick is a different record
    assert!(l.record_oracle_snapshot(&key(2), &key(11), &key(11), &key(12), 1, 2, 4).is_ok());
    assert_eq!(l.snapshots.len(), 2);
}

#[test]
fn metrics_are_executor_only() {
    let l = ready_ledger(5);
    assert_eq!(
        l.publish_metrics(&key(8), 1, 2, 3, 4, None).unwrap_err(),
        ErrorCode::UnauthorizedExecutor
    );
    let ev = l.publish_metrics(&key(2), 1, 2, 3, 4, Some(key(9))).unwrap();
    assert_eq!(ev.window_start_slot, 1);
    assert_eq!(ev.tvl, 2);
    assert_eq!(ev.utilization_bp, 3);
    assert_eq!(ev.total_users, 4);
    assert_eq!(ev.proof_ptr_hash, Some(key(9)));
}

#[test]
fn window_zero_finalizes_at_the_posted_tick() {
    let mut l = ready_ledger(0);
    let ir = build_withdraw_ir();
    let ev = l.submit_job_inline(&key(5), &key(3), None, 0, 300, &key(4), &ir, 10).unwrap();
    l.post_result(&key(2), &ev.job, &key(9), &ev.expected_code_digest, None, None, 20).unwrap();
    assert!(l.finalize(&ev.job, 20).is_ok());
}

#[test]
fn submission_carries_every_field_it_was_given() {
    let mut l = ready_ledger(5);
    let empty: Vec<u8> = Vec::new();
    let ev = l
        .submit_job_inline(&key(5), &key(3), Some(key(21)), 77, 200, &key(4), &empty, 10)
        .unwrap();
    assert_eq!(ev.da_ptr_hash, Some(key(21)));
    assert_eq!(ev.slot, 10);
    let job = l.jobs[0].job;
    assert_eq!(job.da_ptr_hash, Some(key(21)));
    assert_eq!(job.reveal_after_slot, 77);
    assert_eq!(job.function_id, 200);
    assert_eq!(job.result_commitment, None);
    assert_eq!(job.posted_slot, None);
    // the digest of an empty descriptor is still a real digest
    assert_ne!(job.expected_code_digest, [0u8; 32]);
}
