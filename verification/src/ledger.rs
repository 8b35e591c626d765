//! The shared ledger and the coordination service's transitions on it.
//!
//! Each operation is one atomic, serially validated transaction: it either
//! returns an error and leaves the ledger exactly as it was, or applies its
//! full effect. Records live at deterministically derived addresses, and the
//! ledger's uniqueness guarantee — first writer wins — resolves concurrent
//! creation attempts.

use vstd::prelude::*;

use crate::addresses::{job_address, snapshot_address};
use crate::hashing::{b32_eq, keccak256, keccak256_of, push_b32, push_i64_le, push_u64_le};
use crate::hashing::spec_i64_to_le_bytes;
use crate::records::{
    Config, ErrorCode, Job, JobFinalized, JobPosted, JobStatus, JobSubmitted, MetricsPublished,
    OracleSnapshot, OracleSnapshotRecorded, job_step_ok, job_wf,
};
use crate::MAX_IR_BYTES;

verus! {

/// A job record together with the address it occupies.
#[derive(Clone, Copy, Debug, PartialEq, Eq)]
pub struct JobEntry {
    pub addr: [u8; 32],
    pub job: Job,
}

/// A snapshot record together with the address it occupies.
#[derive(Clone, Copy, Debug, PartialEq, Eq)]
pub struct SnapEntry {
    pub addr: [u8; 32],
    pub snap: OracleSnapshot,
}

/// The ledger state the protocol acts on: the one configuration record, the
/// job records, the oracle snapshot store, and the consumption markers laid
/// down by the consumer.
#[derive(Debug)]
pub struct Ledger {
    pub config: Option<Config>,
    pub jobs: Vec<JobEntry>,
    pub snapshots: Vec<SnapEntry>,
    pub consumed: Vec<[u8; 32]>,
}

/// Some job record occupies `addr`.
pub open spec fn has_job_at(jobs: Seq<JobEntry>, addr: Seq<u8>) -> bool {
    exists|i: int| 0 <= i < jobs.len() && (#[trigger] jobs[i]).addr@ == addr
}

/// The job record at `addr` (meaningful only when one exists).
pub open spec fn job_at(jobs: Seq<JobEntry>, addr: Seq<u8>) -> Job {
    let i = choose|i: int| 0 <= i < jobs.len() && (#[trigger] jobs[i]).addr@ == addr;
    jobs[i].job
}

/// Some snapshot record occupies `addr`.
pub open spec fn has_snap_at(snaps: Seq<SnapEntry>, addr: Seq<u8>) -> bool {
    exists|i: int| 0 <= i < snaps.len() && (#[trigger] snaps[i]).addr@ == addr
}

/// The snapshot record at `addr` (meaningful only when one exists).
pub open spec fn snap_at(snaps: Seq<SnapEntry>, addr: Seq<u8>) -> OracleSnapshot {
    let i = choose|i: int| 0 <= i < snaps.len() && (#[trigger] snaps[i]).addr@ == addr;
    snaps[i].snap
}

/// A consumption marker occupies `addr`.
pub open spec fn has_marker(consumed: Seq<[u8; 32]>, addr: Seq<u8>) -> bool {
    exists|i: int| 0 <= i < consumed.len() && (#[trigger] consumed[i])@ == addr
}

/// Domain tag of a snapshot's content fingerprint.
pub open spec fn oracle_snap_tag_bytes() -> Seq<u8> {
    seq![111u8, 114, 97, 99, 108, 101, 45, 115, 110, 97, 112, 45, 118, 49]
}

/// The byte string a snapshot's content fingerprint is computed over: the
/// domain tag followed by every observation field.
pub open spec fn oracle_snap_msg(
    oracle_program: Seq<u8>,
    feed: Seq<u8>,
    price_e9: i64,
    conf_e9: u64,
    observed_slot: u64,
) -> Seq<u8> {
    oracle_snap_tag_bytes() + oracle_program + feed + spec_i64_to_le_bytes(price_e9)
        + vstd::bytes::spec_u64_to_le_bytes(conf_e9)
        + vstd::bytes::spec_u64_to_le_bytes(observed_slot)
}

/// Content fingerprint of an oracle observation: the Keccak-256 digest of
/// the domain-tagged field string, recomputable by any reader.
pub fn oracle_ptr_hash(
    oracle_program: &[u8; 32],
    feed: &[u8; 32],
    price_e9: i64,
    conf_e9: u64,
    observed_slot: u64,
) -> (r: [u8; 32])
    ensures
        r@ == keccak256_of(
            oracle_snap_msg(oracle_program@, feed@, price_e9, conf_e9, observed_slot),
        ),
{
    let mut msg = vec![111u8, 114, 97, 99, 108, 101, 45, 115, 110, 97, 112, 45, 118, 49];
    proof {
        assert(msg@ =~= oracle_snap_tag_bytes());
    }
    push_b32(&mut msg, oracle_program);
    push_b32(&mut msg, feed);
    push_i64_le(&mut msg, price_e9);
    push_u64_le(&mut msg, conf_e9);
    push_u64_le(&mut msg, observed_slot);
    proof {
        assert(msg@ =~= oracle_snap_msg(oracle_program@, feed@, price_e9, conf_e9, observed_slot));
    }
    keccak256(&msg)
}

/// Integrity of a stored snapshot: its fingerprint is the digest of its own
/// fields, as the store computes it at creation.
pub open spec fn snap_wf(s: OracleSnapshot) -> bool {
    s.ptr_hash@ == keccak256_of(
        oracle_snap_msg(s.oracle_program@, s.feed@, s.price_e9, s.conf_e9, s.observed_slot),
    )
}

/// What a successful submission does: exactly one new job record, in the
/// `Submitted` state, at the address derived from the commitment and the
/// submitter, with the code digest computed from the descriptor bytes, and
/// the matching notification.
pub open spec fn submit_appends(
    pre_jobs: Seq<JobEntry>,
    post_jobs: Seq<JobEntry>,
    submitter: [u8; 32],
    commitment: [u8; 32],
    da_ptr_hash: Option<[u8; 32]>,
    reveal_after_slot: u64,
    function_id: u16,
    context_data: [u8; 32],
    ir: Seq<u8>,
    slot: u64,
    ev: JobSubmitted,
) -> bool {
    let e = post_jobs.last();
    &&& post_jobs == pre_jobs.push(e)
    &&& e.addr@ == job_address(commitment@, submitter@)
    &&& e.job.commitment == commitment
    &&& e.job.da_ptr_hash == da_ptr_hash
    &&& e.job.expected_code_digest@ == crate::hashing::sha256_of(ir)
    &&& e.job.result_commitment is None
    &&& e.job.external_ptr_hash is None
    &&& e.job.status is Submitted
    &&& e.job.posted_slot is None
    &&& e.job.reveal_after_slot == reveal_after_slot
    &&& e.job.function_id == function_id
    &&& e.job.context_data == context_data
    &&& e.job.submitter == submitter
    &&& ev == (JobSubmitted {
        job: e.addr,
        submitter: submitter,
        commitment: commitment,
        da_ptr_hash: da_ptr_hash,
        expected_code_digest: e.job.expected_code_digest,
        function_id: function_id,
        context_data: context_data,
        slot: slot,
    })
}

/// The job record produced by the `Submitted -> Posted` transition.
pub open spec fn posted_job(
    j0: Job,
    result_commitment: [u8; 32],
    external_ptr_hash: Option<[u8; 32]>,
    slot: u64,
) -> Job {
    Job {
        commitment: j0.commitment,
        da_ptr_hash: j0.da_ptr_hash,
        expected_code_digest: j0.expected_code_digest,
        result_commitment: Some(result_commitment),
        external_ptr_hash: external_ptr_hash,
        status: JobStatus::Posted,
        posted_slot: Some(slot),
        reveal_after_slot: j0.reveal_after_slot,
        function_id: j0.function_id,
        context_data: j0.context_data,
        submitter: j0.submitter,
        bump: j0.bump,
    }
}

/// The job record produced by the `Posted -> Finalized` transition.
pub open spec fn finalized_job(j0: Job) -> Job {
    Job {
        commitment: j0.commitment,
        da_ptr_hash: j0.da_ptr_hash,
        expected_code_digest: j0.expected_code_digest,
        result_commitment: j0.result_commitment,
        external_ptr_hash: j0.external_ptr_hash,
        status: JobStatus::Finalized,
        posted_slot: j0.posted_slot,
        reveal_after_slot: j0.reveal_after_slot,
        function_id: j0.function_id,
        context_data: j0.context_data,
        submitter: j0.submitter,
        bump: j0.bump,
    }
}

/// Which check, if any, refuses a result posting. Checks are listed in the
/// order the service applies them; the oracle-snapshot binding is mandatory
/// exactly for the liquidation-eligibility function id.
pub open spec fn post_result_outcome(
    cfg: Config,
    found: bool,
    j0: Job,
    executor: Seq<u8>,
    code_digest_again: Seq<u8>,
    external_ptr_hash: Option<[u8; 32]>,
    snap_found: bool,
    snap: OracleSnapshot,
) -> Result<(), ErrorCode> {
    if !found {
        Err(ErrorCode::InvalidPDA)
    } else if executor != cfg.executor@ {
        Err(ErrorCode::UnauthorizedExecutor)
    } else if !(j0.status is Submitted) {
        Err(ErrorCode::InvalidJobStatus)
    } else if code_digest_again != j0.expected_code_digest@ {
        Err(ErrorCode::CodeDigestMismatch)
    } else if j0.function_id == 400 {
        if external_ptr_hash is None {
            Err(ErrorCode::MissingSnapshotHash)
        } else if !snap_found {
            Err(ErrorCode::MissingSnapshot)
        } else if (external_ptr_hash->0)@ != snap.ptr_hash@ {
            Err(ErrorCode::SnapshotHashMismatch)
        } else {
            Ok(())
        }
    } else {
        Ok(())
    }
}

/// Which check, if any, refuses a finalization at tick `slot`.
pub open spec fn finalize_outcome(cfg: Config, found: bool, j0: Job, slot: u64) -> Result<
    (),
    ErrorCode,
> {
    if !found {
        Err(ErrorCode::InvalidPDA)
    } else if !(j0.status is Posted) {
        Err(ErrorCode::InvalidJobStatus)
    } else if j0.posted_slot is None {
        Err(ErrorCode::MissingPostedSlot)
    } else if (slot as int) < j0.posted_slot->0 + cfg.challenge_window_slots {
        Err(ErrorCode::ChallengeWindowNotPassed)
    } else {
        Ok(())
    }
}

impl Ledger {
    /// Well-formedness of the whole ledger: every record sits at the address
    /// derived from its own key fields, no address is occupied twice, every
    /// job is in a reachable shape, and every snapshot fingerprint verifies.
    pub open spec fn wf(&self) -> bool {
        &&& forall|i: int, j: int|
            0 <= i < j < self.jobs@.len() ==> (#[trigger] self.jobs@[i]).addr@ != (
            #[trigger] self.jobs@[j]).addr@
        &&& forall|i: int|
            0 <= i < self.jobs@.len() ==> {
                let e = #[trigger] self.jobs@[i];
                e.addr@ == job_address(e.job.commitment@, e.job.submitter@) && job_wf(e.job)
            }
        &&& forall|i: int, j: int|
            0 <= i < j < self.snapshots@.len() ==> (#[trigger] self.snapshots@[i]).addr@ != (
            #[trigger] self.snapshots@[j]).addr@
        &&& forall|i: int|
            0 <= i < self.snapshots@.len() ==> {
                let e = #[trigger] self.snapshots@[i];
                e.addr@ == snapshot_address(e.snap.oracle_program@, e.snap.feed@,
                    e.snap.observed_slot) && snap_wf(e.snap)
            }
        &&& forall|i: int, j: int|
            0 <= i < j < self.consumed@.len() ==> (#[trigger] self.consumed@[i])@ != (
            #[trigger] self.consumed@[j])@
    }

    /// An empty ledger, before any deployment.
    pub fn new() -> (l: Ledger)
        ensures
            l.wf(),
            l.config is None,
            l.jobs@.len() == 0,
            l.snapshots@.len() == 0,
            l.consumed@.len() == 0,
    {
        Ledger { config: None, jobs: Vec::new(), snapshots: Vec::new(), consumed: Vec::new() }
    }

    /// Index of the job record at `addr`, if one exists.
    pub fn find_job(&self, addr: &[u8; 32]) -> (r: Option<usize>)
        requires
            self.wf(),
        ensures
            match r {
                Some(i) => {
                    &&& i < self.jobs@.len()
                    &&& self.jobs@[i as int].addr@ == addr@
                    &&& has_job_at(self.jobs@, addr@)
                    &&& job_at(self.jobs@, addr@) == self.jobs@[i as int].job
                },
                None => !has_job_at(self.jobs@, addr@),
            },
    {
        let mut i: usize = 0;
        while i < self.jobs.len()
            invariant
                self.wf(),
                i <= self.jobs@.len(),
                forall|j: int| 0 <= j < i ==> (#[trigger] self.jobs@[j]).addr@ != addr@,
            decreases self.jobs@.len() - i,
        {
            if b32_eq(&self.jobs[i].addr, addr) {
                proof {
                    let k = choose|k: int|
                        0 <= k < self.jobs@.len() && (#[trigger] self.jobs@[k]).addr@ == addr@;
                    if k < (i as int) {
                        assert(self.jobs@[k].addr@ != self.jobs@[i as int].addr@);
                    } else if (i as int) < k {
                        assert(self.jobs@[i as int].addr@ != self.jobs@[k].addr@);
                    }
                }
                return Some(i);
            }
            i = i + 1;
        }
        None
    }

    /// Index of the snapshot record at `addr`, if one exists.
    pub fn find_snapshot(&self, addr: &[u8; 32]) -> (r: Option<usize>)
        requires
            self.wf(),
        ensures
            match r {
                Some(i) => {
                    &&& i < self.snapshots@.len()
                    &&& self.snapshots@[i as int].addr@ == addr@
                    &&& has_snap_at(self.snapshots@, addr@)
                    &&& snap_at(self.snapshots@, addr@) == self.snapshots@[i as int].snap
                },
                None => !has_snap_at(self.snapshots@, addr@),
            },
    {
        let mut i: usize = 0;
        while i < self.snapshots.len()
            invariant
                self.wf(),
                i <= self.snapshots@.len(),
                forall|j: int| 0 <= j < i ==> (#[trigger] self.snapshots@[j]).addr@ != addr@,
            decreases self.snapshots@.len() - i,
        {
            if b32_eq(&self.snapshots[i].addr, addr) {
                proof {
                    let k = choose|k: int|
                        0 <= k < self.snapshots@.len() && (#[trigger] self.snapshots@[k]).addr@
                            == addr@;
                    if k < (i as int) {
                        assert(self.snapshots@[k].addr@ != self.snapshots@[i as int].addr@);
                    } else if (i as int) < k {
                        assert(self.snapshots@[i as int].addr@ != self.snapshots@[k].addr@);
                    }
                }
                return Some(i);
            }
            i = i + 1;
        }
        None
    }

    /// Whether a consumption marker occupies `addr`.
    pub fn marker_exists(&self, addr: &[u8; 32]) -> (r: bool)
        ensures
            r == has_marker(self.consumed@, addr@),
    {
        let mut i: usize = 0;
        while i < self.consumed.len()
            invariant
                i <= self.consumed@.len(),
                forall|j: int| 0 <= j < i ==> (#[trigger] self.consumed@[j])@ != addr@,
            decreases self.consumed@.len() - i,
        {
            if b32_eq(&self.consumed[i], addr) {
                return true;
            }
            i = i + 1;
        }
        false
    }

    /// Law: at most one job record can ever exist for a given pair of
    /// commitment and submitter — two entries keyed by the same pair derive
    /// the same address, and no address is occupied twice.
    pub proof fn lemma_job_unique_per_pair(&self, i: int, j: int)
        requires
            self.wf(),
            0 <= i < self.jobs@.len(),
            0 <= j < self.jobs@.len(),
            self.jobs@[i].job.commitment@ == self.jobs@[j].job.commitment@,
            self.jobs@[i].job.submitter@ == self.jobs@[j].job.submitter@,
        ensures
            i == j,
    {
        assert(self.jobs@[i].addr@ == self.jobs@[j].addr@);
    }

    /// Creates the configuration record; fails if the deployment was already
    /// initialized.
    pub fn initialize_config(
        &mut self,
        authority: &[u8; 32],
        executor: &[u8; 32],
        challenge_window_slots: u64,
    ) -> (r: Result<(), ErrorCode>)
        requires
            old(self).wf(),
        ensures
            final(self).wf(),
            final(self).jobs@ == old(self).jobs@,
            final(self).snapshots@ == old(self).snapshots@,
            final(self).consumed@ == old(self).consumed@,
            old(self).config is Some ==> r == Result::<(), ErrorCode>::Err(
                ErrorCode::AccountAlreadyInitialized,
            ) && final(self).config == old(self).config,
            old(self).config is None ==> {
                &&& r == Result::<(), ErrorCode>::Ok(())
                &&& final(self).config is Some
                &&& final(self).config->0.authority == *authority
                &&& final(self).config->0.executor == *executor
                &&& final(self).config->0.challenge_window_slots == challenge_window_slots
            },
    {
        if self.config.is_some() {
            return Err(ErrorCode::AccountAlreadyInitialized);
        }
        let (_, bump) = crate::addresses::derive_config_address();
        self.config = Some(
            Config {
                authority: *authority,
                executor: *executor,
                challenge_window_slots,
                bump,
            },
        );
        Ok(())
    }

    /// Creates a job record in the `Submitted` state. The expected code
    /// digest is computed here from the intent-descriptor bytes — a
    /// caller-supplied digest is never trusted — and the record's address is
    /// derived from the commitment and the submitter, so a second submission
    /// of the same pair finds the address occupied and fails.
    pub fn submit_job_inline(
        &mut self,
        submitter: &[u8; 32],
        commitment: &[u8; 32],
        da_ptr_hash: Option<[u8; 32]>,
        reveal_after_slot: u64,
        function_id: u16,
        context_data: &[u8; 32],
        ir_bytes: &Vec<u8>,
        slot: u64,
    ) -> (r: Result<JobSubmitted, ErrorCode>)
        requires
            old(self).wf(),
            old(self).config is Some,
        ensures
            final(self).wf(),
            final(self).config == old(self).config,
            final(self).snapshots@ == old(self).snapshots@,
            final(self).consumed@ == old(self).consumed@,
            ({
                let addr = job_address(commitment@, submitter@);
                &&& has_job_at(old(self).jobs@, addr) ==> r == Result::<
                    JobSubmitted,
                    ErrorCode,
                >::Err(ErrorCode::AccountAlreadyInitialized) && final(self).jobs@ == old(
                    self,
                ).jobs@
                &&& (!has_job_at(old(self).jobs@, addr) && ir_bytes@.len() > MAX_IR_BYTES)
                    ==> r == Result::<JobSubmitted, ErrorCode>::Err(ErrorCode::IrTooLarge)
                    && final(self).jobs@ == old(self).jobs@
                &&& (!has_job_at(old(self).jobs@, addr) && ir_bytes@.len() <= MAX_IR_BYTES) ==> {
                    &&& r is Ok
                    &&& submit_appends(
                        old(self).jobs@,
                        final(self).jobs@,
                        *submitter,
                        *commitment,
                        da_ptr_hash,
                        reveal_after_slot,
                        function_id,
                        *context_data,
                        ir_bytes@,
                        slot,
                        r->Ok_0,
                    )
                }
            }),
    {
        let (addr, bump) = crate::addresses::derive_job_address(commitment, submitter);
        if self.find_job(&addr).is_some() {
            return Err(ErrorCode::AccountAlreadyInitialized);
        }
        if ir_bytes.len() > MAX_IR_BYTES {
            return Err(ErrorCode::IrTooLarge);
        }
        let digest = crate::hashing::sha256(ir_bytes);
        let job = Job {
            commitment: *commitment,
            da_ptr_hash,
            expected_code_digest: digest,
            result_commitment: None,
            external_ptr_hash: None,
            status: JobStatus::Submitted,
            posted_slot: None,
            reveal_after_slot,
            function_id,
            context_data: *context_data,
            submitter: *submitter,
            bump,
        };
        self.jobs.push(JobEntry { addr, job });
        Ok(
            JobSubmitted {
                job: addr,
                submitter: *submitter,
                commitment: *commitment,
                da_ptr_hash,
                expected_code_digest: digest,
                function_id,
                context_data: *context_data,
                slot,
            },
        )
    }

    /// Executor-only `Submitted -> Posted` transition. The executor must
    /// re-supply the code digest it computed against, and for the
    /// liquidation-eligibility function id it must reference a stored oracle
    /// snapshot whose own fingerprint equals the supplied pointer hash.
    pub fn post_result(
        &mut self,
        executor: &[u8; 32],
        job_addr: &[u8; 32],
        result_commitment: &[u8; 32],
        code_digest_again: &[u8; 32],
        external_ptr_hash: Option<[u8; 32]>,
        snapshot_addr: Option<[u8; 32]>,
        slot: u64,
    ) -> (r: Result<JobPosted, ErrorCode>)
        requires
            old(self).wf(),
            old(self).config is Some,
        ensures
            final(self).wf(),
            final(self).config == old(self).config,
            final(self).snapshots@ == old(self).snapshots@,
            final(self).consumed@ == old(self).consumed@,
            final(self).jobs@.len() == old(self).jobs@.len(),
            forall|i: int|
                0 <= i < old(self).jobs@.len() ==> job_step_ok(
                    (#[trigger] old(self).jobs@[i]).job,
                    final(self).jobs@[i].job,
                ) && final(self).jobs@[i].addr == old(self).jobs@[i].addr,
            ({
                let cfg = old(self).config->0;
                let found = has_job_at(old(self).jobs@, job_addr@);
                let j0 = job_at(old(self).jobs@, job_addr@);
                let snap_found = snapshot_addr is Some && has_snap_at(
                    old(self).snapshots@,
                    (snapshot_addr->0)@,
                );
                let snap = snap_at(old(self).snapshots@, (snapshot_addr->0)@);
                let outcome = post_result_outcome(
                    cfg,
                    found,
                    j0,
                    executor@,
                    code_digest_again@,
                    external_ptr_hash,
                    snap_found,
                    snap,
                );
                &&& outcome is Err ==> r == Result::<JobPosted, ErrorCode>::Err(outcome->Err_0)
                    && final(self).jobs@ == old(self).jobs@
                &&& outcome is Ok ==> {
                    &&& exists|i: int|
                        {
                            &&& 0 <= i < old(self).jobs@.len()
                            &&& (#[trigger] old(self).jobs@[i]).addr@ == job_addr@
                            &&& final(self).jobs@ == old(self).jobs@.update(
                                i,
                                (JobEntry {
                                    addr: old(self).jobs@[i].addr,
                                    job: posted_job(
                                        old(self).jobs@[i].job,
                                        *result_commitment,
                                        external_ptr_hash,
                                        slot,
                                    ),
                                }),
                            )
                        }
                    &&& r == Result::<JobPosted, ErrorCode>::Ok(
                        (JobPosted {
                            job: *job_addr,
                            result_commitment: *result_commitment,
                            code_digest: *code_digest_again,
                            external_ptr_hash: external_ptr_hash,
                            posted_slot: slot,
                        }),
                    )
                }
            }),
    {
        let idx = match self.find_job(job_addr) {
            Some(i) => i,
            None => {
                return Err(ErrorCode::InvalidPDA);
            },
        };
        let cfg = match &self.config {
            Some(c) => *c,
            None => {
                return Err(ErrorCode::InvalidPDA);
            },
        };
        if !b32_eq(executor, &cfg.executor) {
            return Err(ErrorCode::UnauthorizedExecutor);
        }
        let j0 = self.jobs[idx].job;
        if !matches!(j0.status, JobStatus::Submitted) {
            return Err(ErrorCode::InvalidJobStatus);
        }
        if !b32_eq(code_digest_again, &j0.expected_code_digest) {
            return Err(ErrorCode::CodeDigestMismatch);
        }
        if j0.function_id == 400 {
            let eph = match &external_ptr_hash {
                Some(h) => *h,
                None => {
                    return Err(ErrorCode::MissingSnapshotHash);
                },
            };
            let snap_addr = match &snapshot_addr {
                Some(a) => *a,
                None => {
                    return Err(ErrorCode::MissingSnapshot);
                },
            };
            let snap = match self.find_snapshot(&snap_addr) {
                Some(si) => self.snapshots[si].snap,
                None => {
                    return Err(ErrorCode::MissingSnapshot);
                },
            };
            if !b32_eq(&eph, &snap.ptr_hash) {
                return Err(ErrorCode::SnapshotHashMismatch);
            }
        }
        let mut e = self.jobs[idx];
        e.job.result_commitment = Some(*result_commitment);
        e.job.external_ptr_hash = external_ptr_hash;
        e.job.status = JobStatus::Posted;
        e.job.posted_slot = Some(slot);
        proof {
            assert(e.job == posted_job(
                old(self).jobs@[idx as int].job,
                *result_commitment,
                external_ptr_hash,
                slot,
            ));
        }
        self.jobs[idx] = e;
        Ok(
            JobPosted {
                job: *job_addr,
                result_commitment: *result_commitment,
                code_digest: *code_digest_again,
                external_ptr_hash,
                posted_slot: slot,
            },
        )
    }

    /// Permissionless `Posted -> Finalized` transition: succeeds for any
    /// caller once the challenge window has fully elapsed since posting.
    pub fn finalize(&mut self, job_addr: &[u8; 32], slot: u64) -> (r: Result<
        JobFinalized,
        ErrorCode,
    >)
        requires
            old(self).wf(),
            old(self).config is Some,
        ensures
            final(self).wf(),
            final(self).config == old(self).config,
            final(self).snapshots@ == old(self).snapshots@,
            final(self).consumed@ == old(self).consumed@,
            final(self).jobs@.len() == old(self).jobs@.len(),
            forall|i: int|
                0 <= i < old(self).jobs@.len() ==> job_step_ok(
                    (#[trigger] old(self).jobs@[i]).job,
                    final(self).jobs@[i].job,
                ) && final(self).jobs@[i].addr == old(self).jobs@[i].addr,
            ({
                let cfg = old(self).config->0;
                let found = has_job_at(old(self).jobs@, job_addr@);
                let j0 = job_at(old(self).jobs@, job_addr@);
                let outcome = finalize_outcome(cfg, found, j0, slot);
                &&& outcome is Err ==> r == Result::<JobFinalized, ErrorCode>::Err(outcome->Err_0)
                    && final(self).jobs@ == old(self).jobs@
                &&& outcome is Ok ==> {
                    &&& exists|i: int|
                        {
                            &&& 0 <= i < old(self).jobs@.len()
                            &&& (#[trigger] old(self).jobs@[i]).addr@ == job_addr@
                            &&& final(self).jobs@ == old(self).jobs@.update(
                                i,
                                (JobEntry {
                                    addr: old(self).jobs@[i].addr,
                                    job: finalized_job(old(self).jobs@[i].job),
                                }),
                            )
                        }
                    &&& r == Result::<JobFinalized, ErrorCode>::Ok(
                        (JobFinalized { job: *job_addr, slot: slot }),
                    )
                }
            }),
    {
        let idx = match self.find_job(job_addr) {
            Some(i) => i,
            None => {
                return Err(ErrorCode::InvalidPDA);
            },
        };
        let cfg = match &self.config {
            Some(c) => *c,
            None => {
                return Err(ErrorCode::InvalidPDA);
            },
        };
        let j0 = self.jobs[idx].job;
        if !matches!(j0.status, JobStatus::Posted) {
            return Err(ErrorCode::InvalidJobStatus);
        }
        let posted_slot = match j0.posted_slot {
            Some(p) => p,
            None => {
                return Err(ErrorCode::MissingPostedSlot);
            },
        };
        let window_passed = match posted_slot.checked_add(cfg.challenge_window_slots) {
            Some(threshold) => slot >= threshold,
            None => false,
        };
        if !window_passed {
            return Err(ErrorCode::ChallengeWindowNotPassed);
        }
        let mut e = self.jobs[idx];
        e.job.status = JobStatus::Finalized;
        proof {
            assert(e.job == finalized_job(old(self).jobs@[idx as int].job));
        }
        self.jobs[idx] = e;
        Ok(JobFinalized { job: *job_addr, slot })
    }

    /// Executor-only stateless observability report: no record changes, only
    /// the returned notification.
    pub fn publish_metrics(
        &self,
        caller: &[u8; 32],
        window_start_slot: u64,
        tvl: u64,
        utilization_bp: u16,
        total_users: u32,
        proof_ptr_hash: Option<[u8; 32]>,
    ) -> (r: Result<MetricsPublished, ErrorCode>)
        requires
            self.config is Some,
        ensures
            caller@ != self.config->0.executor@ ==> r == Result::<
                MetricsPublished,
                ErrorCode,
            >::Err(ErrorCode::UnauthorizedExecutor),
            caller@ == self.config->0.executor@ ==> r == Result::<
                MetricsPublished,
                ErrorCode,
            >::Ok(
                (MetricsPublished {
                    window_start_slot,
                    tvl,
                    utilization_bp,
                    total_users,
                    proof_ptr_hash,
                }),
            ),
    {
        let cfg = match &self.config {
            Some(c) => *c,
            None => {
                return Err(ErrorCode::UnauthorizedExecutor);
            },
        };
        if !b32_eq(caller, &cfg.executor) {
            return Err(ErrorCode::UnauthorizedExecutor);
        }
        Ok(MetricsPublished { window_start_slot, tvl, utilization_bp, total_users, proof_ptr_hash })
    }

    /// Recorder-only creation of an oracle snapshot. The snapshot's
    /// fingerprint is always computed here over its own fields, never
    /// accepted from the caller, so any reader can re-derive and cross-check
    /// it; the record is immutable afterwards.
    pub fn record_oracle_snapshot(
        &mut self,
        recorder: &[u8; 32],
        oracle_program: &[u8; 32],
        oracle_program_acc_key: &[u8; 32],
        feed: &[u8; 32],
        price_e9: i64,
        conf_e9: u64,
        observed_slot: u64,
    ) -> (r: Result<OracleSnapshotRecorded, ErrorCode>)
        requires
            old(self).wf(),
            old(self).config is Some,
        ensures
            final(self).wf(),
            final(self).config == old(self).config,
            final(self).jobs@ == old(self).jobs@,
            final(self).consumed@ == old(self).consumed@,
            ({
                let cfg = old(self).config->0;
                let addr = snapshot_address(oracle_program@, feed@, observed_slot);
                &&& recorder@ != cfg.executor@ ==> r == Result::<
                    OracleSnapshotRecorded,
                    ErrorCode,
                >::Err(ErrorCode::UnauthorizedExecutor) && final(self).snapshots@ == old(
                    self,
                ).snapshots@
                &&& (recorder@ == cfg.executor@ && has_snap_at(old(self).snapshots@, addr)) ==> r
                    == Result::<OracleSnapshotRecorded, ErrorCode>::Err(
                    ErrorCode::AccountAlreadyInitialized,
                ) && final(self).snapshots@ == old(self).snapshots@
                &&& (recorder@ == cfg.executor@ && !has_snap_at(old(self).snapshots@, addr)
                    && oracle_program_acc_key@ != oracle_program@) ==> r == Result::<
                    OracleSnapshotRecorded,
                    ErrorCode,
                >::Err(ErrorCode::BadOracleProgram) && final(self).snapshots@ == old(
                    self,
                ).snapshots@
                &&& (recorder@ == cfg.executor@ && !has_snap_at(old(self).snapshots@, addr)
                    && oracle_program_acc_key@ == oracle_program@) ==> {
                    let e = final(self).snapshots@.last();
                    &&& final(self).snapshots@ == old(self).snapshots@.push(e)
                    &&& e.addr@ == addr
                    &&& e.snap.oracle_program == *oracle_program
                    &&& e.snap.feed == *feed
                    &&& e.snap.price_e9 == price_e9
                    &&& e.snap.conf_e9 == conf_e9
                    &&& e.snap.observed_slot == observed_slot
                    &&& e.snap.ptr_hash@ == keccak256_of(
                        oracle_snap_msg(
                            oracle_program@,
                            feed@,
                            price_e9,
                            conf_e9,
                            observed_slot,
                        ),
                    )
                    &&& r == Result::<OracleSnapshotRecorded, ErrorCode>::Ok(
                        (OracleSnapshotRecorded {
                            snapshot: e.addr,
                            oracle_program: *oracle_program,
                            feed: *feed,
                            price_e9,
                            conf_e9,
                            observed_slot,
                            ptr_hash: e.snap.ptr_hash,
                        }),
                    )
                }
            }),
    {
        let cfg = match &self.config {
            Some(c) => *c,
            None => {
                return Err(ErrorCode::UnauthorizedExecutor);
            },
        };
        if !b32_eq(recorder, &cfg.executor) {
            return Err(ErrorCode::UnauthorizedExecutor);
        }
        let (addr, bump) = crate::addresses::derive_snapshot_address(
            oracle_program,
            feed,
            observed_slot,
        );
        if self.find_snapshot(&addr).is_some() {
            return Err(ErrorCode::AccountAlreadyInitialized);
        }
        if !b32_eq(oracle_program_acc_key, oracle_program) {
            return Err(ErrorCode::BadOracleProgram);
        }
        let ptr_hash = oracle_ptr_hash(oracle_program, feed, price_e9, conf_e9, observed_slot);
        let snap = OracleSnapshot {
            oracle_program: *oracle_program,
            feed: *feed,
            price_e9,
            conf_e9,
            observed_slot,
            ptr_hash,
            bump,
        };
        self.snapshots.push(SnapEntry { addr, snap });
        Ok(
            OracleSnapshotRecorded {
                snapshot: addr,
                oracle_program: *oracle_program,
                feed: *feed,
                price_e9,
                conf_e9,
                observed_slot,
                ptr_hash,
            },
        )
    }
}

} // verus!
