//! Persisted record types of the coordination service and its consumer, the
//! status machine of a job, and the errors each side reports.

use vstd::prelude::*;

verus! {

/// Lifecycle stage of a job. `Revealed` is a reserved extension point: no
/// transition of the current protocol ever produces it.
#[derive(Clone, Copy, Debug, PartialEq, Eq, Structural)]
pub enum JobStatus {
    Submitted,
    Posted,
    Finalized,
    Revealed,
}

/// Position of a status in the forward-only lifecycle order.
pub open spec fn status_rank(s: JobStatus) -> int {
    match s {
        JobStatus::Submitted => 0,
        JobStatus::Posted => 1,
        JobStatus::Finalized => 2,
        JobStatus::Revealed => 3,
    }
}

impl JobStatus {
    /// Wire byte of a status.
    pub fn code(&self) -> (r: u8)
        ensures
            r as int == status_rank(*self),
    {
        match self {
            JobStatus::Submitted => 0,
            JobStatus::Posted => 1,
            JobStatus::Finalized => 2,
            JobStatus::Revealed => 3,
        }
    }
}

/// Deployment-wide configuration: who may initialize, who may post results,
/// and how many ticks must pass between posting and finality.
#[derive(Clone, Copy, Debug, PartialEq, Eq)]
pub struct Config {
    pub authority: [u8; 32],
    pub executor: [u8; 32],
    pub challenge_window_slots: u64,
    pub bump: u8,
}

/// One job record: a commitment to an off-ledger computation together with
/// the binding material a consumer later verifies against.
#[derive(Clone, Copy, Debug, PartialEq, Eq)]
pub struct Job {
    pub commitment: [u8; 32],
    pub da_ptr_hash: Option<[u8; 32]>,
    pub expected_code_digest: [u8; 32],
    pub result_commitment: Option<[u8; 32]>,
    pub external_ptr_hash: Option<[u8; 32]>,
    pub status: JobStatus,
    pub posted_slot: Option<u64>,
    pub reveal_after_slot: u64,
    pub function_id: u16,
    pub context_data: [u8; 32],
    pub submitter: [u8; 32],
    pub bump: u8,
}

/// Well-formedness of a job record: the write-once fields are present
/// exactly when the status says they have been written, and the reserved
/// `Revealed` status never occurs.
pub open spec fn job_wf(j: Job) -> bool {
    match j.status {
        JobStatus::Submitted => j.result_commitment is None && j.posted_slot is None
            && j.external_ptr_hash is None,
        JobStatus::Posted => j.result_commitment is Some && j.posted_slot is Some,
        JobStatus::Finalized => j.result_commitment is Some && j.posted_slot is Some,
        JobStatus::Revealed => false,
    }
}

/// The transition relation of a single job record: it is untouched, or it
/// takes one of the two forward steps. A forward step never changes the
/// fields fixed at submission, and the post step writes the write-once
/// fields exactly once.
pub open spec fn job_step_ok(pre: Job, post: Job) -> bool {
    ||| post == pre
    ||| {
        &&& pre.status is Submitted
        &&& post.status is Posted
        &&& post.result_commitment is Some
        &&& post.posted_slot is Some
        &&& fixed_fields_eq(pre, post)
    }
    ||| {
        &&& pre.status is Posted
        &&& post.status is Finalized
        &&& post.result_commitment == pre.result_commitment
        &&& post.external_ptr_hash == pre.external_ptr_hash
        &&& post.posted_slot == pre.posted_slot
        &&& fixed_fields_eq(pre, post)
    }
}

/// The fields a job fixes at submission and never changes afterwards.
pub open spec fn fixed_fields_eq(pre: Job, post: Job) -> bool {
    &&& post.commitment == pre.commitment
    &&& post.da_ptr_hash == pre.da_ptr_hash
    &&& post.expected_code_digest == pre.expected_code_digest
    &&& post.reveal_after_slot == pre.reveal_after_slot
    &&& post.function_id == pre.function_id
    &&& post.context_data == pre.context_data
    &&& post.submitter == pre.submitter
    &&& post.bump == pre.bump
}

/// Law: over any single allowed step, a job's status never moves backward,
/// and a step that does change the status moves it exactly one stage forward
/// along `Submitted, Posted, Finalized`. Chained over a job's lifetime, the
/// observed status sequence is therefore a prefix of that order.
pub proof fn lemma_status_monotonic(pre: Job, post: Job)
    requires
        job_step_ok(pre, post),
    ensures
        status_rank(post.status) >= status_rank(pre.status),
        post.status != pre.status ==> {
            ||| (pre.status is Submitted && post.status is Posted)
            ||| (pre.status is Posted && post.status is Finalized)
        },
{
}

/// Law: an allowed step never rewrites what submission fixed, and never
/// rewrites a result commitment or posting tick once one is present.
pub proof fn lemma_write_once(pre: Job, post: Job)
    requires
        job_wf(pre),
        job_step_ok(pre, post),
    ensures
        fixed_fields_eq(pre, post),
        pre.result_commitment is Some ==> post.result_commitment == pre.result_commitment,
        pre.posted_slot is Some ==> post.posted_slot == pre.posted_slot,
{
}

/// One recorded oracle price observation. `ptr_hash` is the record's own
/// content fingerprint, computed by the store itself over all other fields.
#[derive(Clone, Copy, Debug, PartialEq, Eq)]
pub struct OracleSnapshot {
    pub oracle_program: [u8; 32],
    pub feed: [u8; 32],
    pub price_e9: i64,
    pub conf_e9: u64,
    pub observed_slot: u64,
    pub ptr_hash: [u8; 32],
    pub bump: u8,
}

/// Errors the coordination service reports.
#[derive(Clone, Copy, Debug, PartialEq, Eq, Structural)]
pub enum ErrorCode {
    InvalidJobStatus,
    CodeDigestMismatch,
    UnauthorizedExecutor,
    ChallengeWindowNotPassed,
    MissingPostedSlot,
    IrTooLarge,
    BadOracleProgram,
    BadOracleFeedOwner,
    MissingSnapshot,
    MissingSnapshotHash,
    SnapshotHashMismatch,
    InvalidPDA,
    AccountAlreadyInitialized,
}

/// Errors the lending-style consumer reports.
#[derive(Clone, Copy, Debug, PartialEq, Eq, Structural)]
pub enum LendErr {
    BadJobPda,
    JobNotFinal,
    BadFunction,
    NotJobSubmitter,
    BadContextData,
    SerializeFail,
    InsufficientVaultBalance,
    BadIRDigest,
    BadCoprocConfigOwner,
    JobDeserializeFail,
    SnapshotDeserializeFail,
    MissingExternalPtr,
    OraclePtrMismatch,
    OraclePtrRehashMismatch,
    OracleStale,
    JobNotFinalized,
    WrongJobFunction,
    SnapshotHashMismatch,
}

/// Failure of a consumer-side transaction: either one of the consumer's own
/// checks refused it, or the shared ledger and coordination-service layer
/// did (record uniqueness, a cross-invocation that the service rejected).
#[derive(Clone, Copy, Debug, PartialEq, Eq, Structural)]
pub enum LendingFailure {
    Consumer(LendErr),
    Service(ErrorCode),
}

/// Notification appended when a job is created.
#[derive(Clone, Copy, Debug, PartialEq, Eq)]
pub struct JobSubmitted {
    pub job: [u8; 32],
    pub submitter: [u8; 32],
    pub commitment: [u8; 32],
    pub da_ptr_hash: Option<[u8; 32]>,
    pub expected_code_digest: [u8; 32],
    pub function_id: u16,
    pub context_data: [u8; 32],
    pub slot: u64,
}

/// Notification appended when the executor posts a result.
#[derive(Clone, Copy, Debug, PartialEq, Eq)]
pub struct JobPosted {
    pub job: [u8; 32],
    pub result_commitment: [u8; 32],
    pub code_digest: [u8; 32],
    pub external_ptr_hash: Option<[u8; 32]>,
    pub posted_slot: u64,
}

/// Notification appended when a job becomes final.
#[derive(Clone, Copy, Debug, PartialEq, Eq)]
pub struct JobFinalized {
    pub job: [u8; 32],
    pub slot: u64,
}

/// Stateless observability report published by the executor.
#[derive(Clone, Copy, Debug, PartialEq, Eq)]
pub struct MetricsPublished {
    pub window_start_slot: u64,
    pub tvl: u64,
    pub utilization_bp: u16,
    pub total_users: u32,
    pub proof_ptr_hash: Option<[u8; 32]>,
}

/// Notification appended when an oracle snapshot is recorded.
#[derive(Clone, Copy, Debug, PartialEq, Eq)]
pub struct OracleSnapshotRecorded {
    pub snapshot: [u8; 32],
    pub oracle_program: [u8; 32],
    pub feed: [u8; 32],
    pub price_e9: i64,
    pub conf_e9: u64,
    pub observed_slot: u64,
    pub ptr_hash: [u8; 32],
}

/// Off-chain-consumable ticket emitted for a finalized liquidation job.
#[derive(Clone, Copy, Debug, PartialEq, Eq)]
pub struct LiqTicket {
    pub job: [u8; 32],
    pub ticket_digest: [u8; 32],
    pub asset_pair: [u8; 16],
    pub lot: u64,
    pub discount_bp: u16,
    pub deadline_slot: u64,
}

} // verus!
