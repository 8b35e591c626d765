//! The lending-style consumer: it outsources its risk checks to the
//! coordination service and releases custody only against a finalized job
//! that matches the exact computation and context it expected.
//!
//! The consumer builds each job's intent descriptor and context hash itself,
//! derives the job address itself, and re-derives both again at consumption
//! time, so neither a buggy executor nor a foreign job can release its funds.
//! A zero-payload consumption marker at a derived address makes each
//! finalized job spendable at most once.

use vstd::prelude::*;

use crate::addresses::{consumed_address, derive_consumed_address, derive_job_address, job_address,
    lending_program_id};
use crate::hashing::{b32_eq, keccak256, keccak256_of, push_b32, push_u16_le, push_u32_le,
    push_u64_le, sha256, sha256_of};
use crate::ledger::{has_job_at, has_marker, has_snap_at, job_at, JobEntry, Ledger, oracle_ptr_hash,
    oracle_snap_msg, snap_at, submit_appends};
use crate::records::{ErrorCode, Job, JobSubmitted, LendErr, LendingFailure, LiqTicket,
    OracleSnapshot};
use crate::MAX_IR_BYTES;
use vstd::string::StringSliceAdditionalSpecFns;

verus! {

/// Function id of the deposit check.
pub const FID_DEPOSIT: u16 = 100;

/// Function id of the borrow check.
pub const FID_BORROW: u16 = 200;

/// Function id of the withdraw check.
pub const FID_WITHDRAW: u16 = 300;

/// Function id of the liquidation-eligibility check.
pub const FID_LIQ_ELIGIBILITY: u16 = 400;

/// Descriptor operation: add two registers.
pub const OP_ADD: u8 = 0x01;

/// Descriptor operation: subtract one register from another.
pub const OP_SUB: u8 = 0x02;

/// Descriptor operation: multiply two registers (reserved).
pub const OP_MUL: u8 = 0x03;

/// Descriptor operation: multiply a register by an inline constant.
pub const OP_MUL_CST: u8 = 0x04;

/// Descriptor operation: greater-or-equal comparison of two registers.
pub const OP_GTE: u8 = 0x10;

/// Ticks an oracle snapshot may lag the consumer's clock and still back a
/// liquidation.
pub const ORACLE_FRESHNESS_SLOTS: u64 = 300;

/// Ticks an emitted liquidation ticket stays valid.
pub const LIQ_TICKET_VALIDITY_SLOTS: u64 = 150;

/// Intent descriptor of the deposit check: new balance = balance + amount.
pub open spec fn deposit_ir_bytes() -> Seq<u8> {
    seq![OP_ADD, 0x00u8, 0x01, 0x02]
}

/// Intent descriptor of the borrow check: collateral >= debt scaled by the
/// loan-to-value ratio in basis points.
pub open spec fn borrow_ir_bytes(ltv_basis_points: u32) -> Seq<u8> {
    seq![OP_MUL_CST, 0x03u8, 0x02, 0x00] + vstd::bytes::spec_u32_to_le_bytes(ltv_basis_points)
        + seq![OP_GTE, 0x00u8, 0x01, 0x03]
}

/// Intent descriptor of the withdraw check: new balance = balance - amount.
pub open spec fn withdraw_ir_bytes() -> Seq<u8> {
    seq![OP_SUB, 0x00u8, 0x01, 0x02]
}

/// Intent descriptor of the liquidation-eligibility check: collateral >=
/// debt scaled by the minimum collateral ratio in basis points.
pub open spec fn liq_eligibility_ir_bytes(min_collateral_ratio_bp: u32) -> Seq<u8> {
    seq![OP_MUL_CST, 0x03u8, 0x02, 0x00] + vstd::bytes::spec_u32_to_le_bytes(
        min_collateral_ratio_bp,
    ) + seq![OP_GTE, 0x00u8, 0x01, 0x03]
}

/// Builds the deposit intent descriptor.
pub fn build_deposit_ir() -> (r: Vec<u8>)
    ensures
        r@ == deposit_ir_bytes(),
{
    let r = vec![OP_ADD, 0x00u8, 0x01, 0x02];
    proof {
        assert(r@ =~= deposit_ir_bytes());
    }
    r
}

/// Builds the borrow intent descriptor for a loan-to-value bound.
pub fn build_borrow_ir(ltv_basis_points: u32) -> (r: Vec<u8>)
    ensures
        r@ == borrow_ir_bytes(ltv_basis_points),
{
    let mut ir = vec![OP_MUL_CST, 0x03u8, 0x02, 0x00];
    push_u32_le(&mut ir, ltv_basis_points);
    ir.push(OP_GTE);
    ir.push(0x00);
    ir.push(0x01);
    ir.push(0x03);
    proof {
        assert(ir@ =~= borrow_ir_bytes(ltv_basis_points));
    }
    ir
}

/// Builds the withdraw intent descriptor.
pub fn build_withdraw_ir() -> (r: Vec<u8>)
    ensures
        r@ == withdraw_ir_bytes(),
{
    let r = vec![OP_SUB, 0x00u8, 0x01, 0x02];
    proof {
        assert(r@ =~= withdraw_ir_bytes());
    }
    r
}

/// Builds the liquidation-eligibility intent descriptor for a minimum
/// collateral ratio.
pub fn build_liq_eligibility_ir(min_collateral_ratio_bp: u32) -> (r: Vec<u8>)
    ensures
        r@ == liq_eligibility_ir_bytes(min_collateral_ratio_bp),
{
    let mut ir = vec![OP_MUL_CST, 0x03u8, 0x02, 0x00];
    push_u32_le(&mut ir, min_collateral_ratio_bp);
    ir.push(OP_GTE);
    ir.push(0x00);
    ir.push(0x01);
    ir.push(0x03);
    proof {
        assert(ir@ =~= liq_eligibility_ir_bytes(min_collateral_ratio_bp));
    }
    ir
}

/// Domain tag of deposit context hashes.
pub open spec fn deposit_tag_bytes() -> Seq<u8> {
    seq![100u8, 101, 112, 111, 115, 105, 116, 45, 118, 49]
}

/// Domain tag of borrow context hashes.
pub open spec fn borrow_tag_bytes() -> Seq<u8> {
    seq![98u8, 111, 114, 114, 111, 119, 45, 118, 49]
}

/// Domain tag of withdraw context hashes.
pub open spec fn withdraw_tag_bytes() -> Seq<u8> {
    seq![119u8, 105, 116, 104, 100, 114, 97, 119, 45, 118, 49]
}

/// The byte string a plain (non-oracle) context hash is computed over: the
/// purpose tag, the consumer identity, and every caller-specific parameter.
pub open spec fn plain_ctx_msg(tag: Seq<u8>, user: Seq<u8>, mint: Seq<u8>, amount: u64, nonce: u64) -> Seq<u8> {
    tag + lending_program_id() + user + mint + vstd::bytes::spec_u64_to_le_bytes(amount)
        + vstd::bytes::spec_u64_to_le_bytes(nonce)
}

/// The byte string an oracle-anchored context hash is computed over: the
/// plain parameters followed by the oracle identity, the tick the price was
/// observed at, the accepted confidence band, and the staleness bound.
pub open spec fn oracle_anchored_ctx_msg(
    tag: Seq<u8>,
    user: Seq<u8>,
    mint: Seq<u8>,
    amount: u64,
    nonce: u64,
    oracle_program: Seq<u8>,
    feed: Seq<u8>,
    observed_slot: u64,
    conf_band_bp: u16,
    staleness_limit_slots: u64,
) -> Seq<u8> {
    tag + lending_program_id() + user + mint + vstd::bytes::spec_u64_to_le_bytes(amount)
        + vstd::bytes::spec_u64_to_le_bytes(nonce) + oracle_program + feed
        + vstd::bytes::spec_u64_to_le_bytes(observed_slot) + vstd::bytes::spec_u16_to_le_bytes(
        conf_band_bp,
    ) + vstd::bytes::spec_u64_to_le_bytes(staleness_limit_slots)
}

/// The caller-facing arguments every cross-invoked submission shares.
#[derive(Clone, Copy, Debug, PartialEq, Eq)]
pub struct CpiSubmitJobCommonArgs {
    pub commitment: [u8; 32],
    pub da_ptr_hash: Option<[u8; 32]>,
    pub reveal_after_slot: u64,
    pub context_data: [u8; 32],
}

fn plain_context(tag: Vec<u8>, user: &[u8; 32], mint: &[u8; 32], amount: u64, nonce: u64) -> (r:
    [u8; 32])
    ensures
        r@ == keccak256_of(plain_ctx_msg(tag@, user@, mint@, amount, nonce)),
{
    let mut msg = tag;
    let ghost tag_view = msg@;
    let pid = crate::addresses::lending_id();
    push_b32(&mut msg, &pid);
    push_b32(&mut msg, user);
    push_b32(&mut msg, mint);
    push_u64_le(&mut msg, amount);
    push_u64_le(&mut msg, nonce);
    proof {
        assert(msg@ =~= plain_ctx_msg(tag_view, user@, mint@, amount, nonce));
    }
    keccak256(&msg)
}

impl CpiSubmitJobCommonArgs {
    /// Context hash binding a deposit job to its exact parameters.
    pub fn create_deposit_context(user: &[u8; 32], mint: &[u8; 32], amount: u64, nonce: u64) -> (r:
        [u8; 32])
        ensures
            r@ == keccak256_of(plain_ctx_msg(deposit_tag_bytes(), user@, mint@, amount, nonce)),
    {
        let tag = vec![100u8, 101, 112, 111, 115, 105, 116, 45, 118, 49];
        proof {
            assert(tag@ =~= deposit_tag_bytes());
        }
        plain_context(tag, user, mint, amount, nonce)
    }

    /// Context hash binding a borrow job to its exact parameters.
    pub fn create_borrow_context(user: &[u8; 32], mint: &[u8; 32], amount: u64, nonce: u64) -> (r:
        [u8; 32])
        ensures
            r@ == keccak256_of(plain_ctx_msg(borrow_tag_bytes(), user@, mint@, amount, nonce)),
    {
        let tag = vec![98u8, 111, 114, 114, 111, 119, 45, 118, 49];
        proof {
            assert(tag@ =~= borrow_tag_bytes());
        }
        plain_context(tag, user, mint, amount, nonce)
    }

    /// Context hash binding a withdraw job to its exact parameters.
    pub fn create_withdraw_context(user: &[u8; 32], mint: &[u8; 32], amount: u64, nonce: u64) -> (r:
        [u8; 32])
        ensures
            r@ == keccak256_of(plain_ctx_msg(withdraw_tag_bytes(), user@, mint@, amount, nonce)),
    {
        let tag = vec![119u8, 105, 116, 104, 100, 114, 97, 119, 45, 118, 49];
        proof {
            assert(tag@ =~= withdraw_tag_bytes());
        }
        plain_context(tag, user, mint, amount, nonce)
    }

    /// Context hash binding an oracle-anchored job to its exact parameters,
    /// oracle identity, observed tick, confidence band and staleness bound.
    pub fn create_oracle_anchored_ctx(
        tag: &[u8],
        user: &[u8; 32],
        mint: &[u8; 32],
        amount: u64,
        nonce: u64,
        oracle_program: &[u8; 32],
        feed: &[u8; 32],
        observed_slot: u64,
        conf_band_bp: u16,
        staleness_limit_slots: u64,
    ) -> (r: [u8; 32])
        ensures
            r@ == keccak256_of(
                oracle_anchored_ctx_msg(
                    tag@,
                    user@,
                    mint@,
                    amount,
                    nonce,
                    oracle_program@,
                    feed@,
                    observed_slot,
                    conf_band_bp,
                    staleness_limit_slots,
                ),
            ),
    {
        let mut msg: Vec<u8> = Vec::new();
        msg.extend_from_slice(tag);
        let pid = crate::addresses::lending_id();
        push_b32(&mut msg, &pid);
        push_b32(&mut msg, user);
        push_b32(&mut msg, mint);
        push_u64_le(&mut msg, amount);
        push_u64_le(&mut msg, nonce);
        push_b32(&mut msg, oracle_program);
        push_b32(&mut msg, feed);
        push_u64_le(&mut msg, observed_slot);
        push_u16_le(&mut msg, conf_band_bp);
        push_u64_le(&mut msg, staleness_limit_slots);
        proof {
            assert(msg@ =~= oracle_anchored_ctx_msg(
                tag@,
                user@,
                mint@,
                amount,
                nonce,
                oracle_program@,
                feed@,
                observed_slot,
                conf_band_bp,
                staleness_limit_slots,
            ));
        }
        keccak256(&msg)
    }
}

/// Prefix every instruction-name digest is computed over.
pub open spec fn global_tag_bytes() -> Seq<u8> {
    seq![103u8, 108, 111, 98, 97, 108, 58]
}

/// Eight-byte instruction discriminator: the leading bytes of the SHA-256
/// digest of the tagged instruction name.
pub fn disc(name: &str) -> (r: [u8; 8])
    ensures
        r@ == sha256_of(global_tag_bytes() + name.spec_bytes()).subrange(0, 8),
{
    let mut msg = vec![103u8, 108, 111, 98, 97, 108, 58];
    proof {
        assert(msg@ =~= global_tag_bytes());
    }
    msg.extend_from_slice(name.as_bytes());
    proof {
        assert(msg@ =~= global_tag_bytes() + name.spec_bytes());
    }
    let h = sha256(&msg);
    proof {
        assert(h@.len() == 32);
    }
    let r: [u8; 8] = [h[0], h[1], h[2], h[3], h[4], h[5], h[6], h[7]];
    proof {
        assert(r@ =~= h@.subrange(0, 8));
    }
    r
}

/// The arguments of a cross-invoked submission, as they travel on the wire.
#[derive(Debug, PartialEq, Eq)]
pub struct SubmitJobInlineArgs {
    pub commitment: [u8; 32],
    pub da_ptr_hash: Option<[u8; 32]>,
    pub reveal_after_slot: u64,
    pub function_id: u16,
    pub context_data: [u8; 32],
    pub ir_bytes: Vec<u8>,
}

/// Wire form of an optional 32-byte value: a presence byte, then the value.
pub open spec fn opt_b32_bytes(o: Option<[u8; 32]>) -> Seq<u8> {
    match o {
        None => seq![0u8],
        Some(h) => seq![1u8] + h@,
    }
}

/// Name of the submission instruction.
pub open spec fn submit_ix_name_bytes() -> Seq<u8> {
    seq![
        115u8, 117, 98, 109, 105, 116, 95, 106, 111, 98, 95, 105, 110, 108, 105, 110, 101,
    ]
}

/// Payload of a submission instruction: each argument in declaration order,
/// integers little-endian, the descriptor length-prefixed.
pub open spec fn submit_args_bytes(a: SubmitJobInlineArgs) -> Seq<u8> {
    a.commitment@ + opt_b32_bytes(a.da_ptr_hash) + vstd::bytes::spec_u64_to_le_bytes(
        a.reveal_after_slot,
    ) + vstd::bytes::spec_u16_to_le_bytes(a.function_id) + a.context_data@
        + vstd::bytes::spec_u32_to_le_bytes(a.ir_bytes@.len() as u32) + a.ir_bytes@
}

/// Full instruction data of a cross-invoked submission: the instruction
/// discriminator followed by the encoded arguments.
pub fn encode_submit_job_args(args: &SubmitJobInlineArgs) -> (r: Vec<u8>)
    requires
        args.ir_bytes@.len() <= u32::MAX,
    ensures
        r@ == sha256_of(global_tag_bytes() + submit_ix_name_bytes()).subrange(0, 8)
            + submit_args_bytes(*args),
{
    let mut name = vec![103u8, 108, 111, 98, 97, 108, 58];
    name.push(115);
    name.push(117);
    name.push(98);
    name.push(109);
    name.push(105);
    name.push(116);
    name.push(95);
    name.push(106);
    name.push(111);
    name.push(98);
    name.push(95);
    name.push(105);
    name.push(110);
    name.push(108);
    name.push(105);
    name.push(110);
    name.push(101);
    proof {
        assert(name@ =~= global_tag_bytes() + submit_ix_name_bytes());
    }
    let h = sha256(&name);
    let mut data: Vec<u8> = Vec::new();
    data.push(h[0]);
    data.push(h[1]);
    data.push(h[2]);
    data.push(h[3]);
    data.push(h[4]);
    data.push(h[5]);
    data.push(h[6]);
    data.push(h[7]);
    proof {
        assert(data@ =~= h@.subrange(0, 8));
    }
    push_b32(&mut data, &args.commitment);
    match &args.da_ptr_hash {
        None => {
            data.push(0);
        },
        Some(hash32) => {
            data.push(1);
            push_b32(&mut data, hash32);
        },
    }
    push_u64_le(&mut data, args.reveal_after_slot);
    push_u16_le(&mut data, args.function_id);
    push_b32(&mut data, &args.context_data);
    #[verifier::truncate]
    let ir_len = args.ir_bytes.len() as u32;
    push_u32_le(&mut data, ir_len);
    data.extend_from_slice(args.ir_bytes.as_slice());
    proof {
        assert(data@ =~= sha256_of(global_tag_bytes() + submit_ix_name_bytes()).subrange(0, 8)
            + submit_args_bytes(*args));
    }
    data
}

/// Everything a cross-invoked submission does, stated once and shared by all
/// the consumer's submission entry points: the consumer-derived address must
/// match the target, then the coordination service's own submission rules
/// decide, and on success exactly the described record is appended.
pub open spec fn cpi_submit_post(
    pre: Ledger,
    post: Ledger,
    r: Result<JobSubmitted, LendingFailure>,
    coproc_job: [u8; 32],
    user: [u8; 32],
    commitment: [u8; 32],
    da_ptr_hash: Option<[u8; 32]>,
    reveal_after_slot: u64,
    function_id: u16,
    context_data: [u8; 32],
    ir: Seq<u8>,
    slot: u64,
) -> bool {
    let addr = job_address(commitment@, user@);
    &&& post.config == pre.config
    &&& post.snapshots@ == pre.snapshots@
    &&& post.consumed@ == pre.consumed@
    &&& addr != coproc_job@ ==> r == Result::<JobSubmitted, LendingFailure>::Err(
        LendingFailure::Consumer(LendErr::BadJobPda),
    ) && post.jobs@ == pre.jobs@
    &&& (addr == coproc_job@ && has_job_at(pre.jobs@, addr)) ==> r == Result::<
        JobSubmitted,
        LendingFailure,
    >::Err(LendingFailure::Service(ErrorCode::AccountAlreadyInitialized)) && post.jobs@
        == pre.jobs@
    &&& (addr == coproc_job@ && !has_job_at(pre.jobs@, addr) && ir.len() > MAX_IR_BYTES) ==> r
        == Result::<JobSubmitted, LendingFailure>::Err(
        LendingFailure::Service(ErrorCode::IrTooLarge),
    ) && post.jobs@ == pre.jobs@
    &&& (addr == coproc_job@ && !has_job_at(pre.jobs@, addr) && ir.len() <= MAX_IR_BYTES) ==> {
        &&& r is Ok
        &&& submit_appends(
            pre.jobs@,
            post.jobs@,
            user,
            commitment,
            da_ptr_hash,
            reveal_after_slot,
            function_id,
            context_data,
            ir,
            slot,
            r->Ok_0,
        )
    }
}

/// Which check, if any, refuses a withdraw execution. The consumer accepts
/// only its own finalized withdraw job, bound to exactly these parameters,
/// and only while the vault can cover the amount; a pre-existing consumption
/// marker refuses the whole transaction first.
pub open spec fn execute_withdraw_outcome(
    replayed: bool,
    found: bool,
    j: Job,
    user: Seq<u8>,
    mint: Seq<u8>,
    amount: u64,
    vault_balance: u64,
) -> Result<(), LendingFailure> {
    if replayed {
        Err(LendingFailure::Service(ErrorCode::AccountAlreadyInitialized))
    } else if !found {
        Err(LendingFailure::Consumer(LendErr::BadCoprocConfigOwner))
    } else if !(j.status is Finalized) {
        Err(LendingFailure::Consumer(LendErr::JobNotFinal))
    } else if j.function_id != FID_WITHDRAW {
        Err(LendingFailure::Consumer(LendErr::BadFunction))
    } else if j.submitter@ != user {
        Err(LendingFailure::Consumer(LendErr::NotJobSubmitter))
    } else if j.expected_code_digest@ != sha256_of(withdraw_ir_bytes()) {
        Err(LendingFailure::Consumer(LendErr::BadIRDigest))
    } else if j.context_data@ != keccak256_of(
        plain_ctx_msg(withdraw_tag_bytes(), user, mint, amount, 0),
    ) {
        Err(LendingFailure::Consumer(LendErr::BadContextData))
    } else if vault_balance < amount {
        Err(LendingFailure::Consumer(LendErr::InsufficientVaultBalance))
    } else {
        Ok(())
    }
}

/// Which check, if any, refuses a liquidation execution: the job must be the
/// caller's own finalized liquidation-eligibility job, bound to exactly the
/// computation and context the consumer recomputes, and carrying an oracle
/// pointer; the referenced snapshot must match that pointer and re-verify
/// against its own fields, and the observation must still be fresh at the
/// consumer's clock.
pub open spec fn execute_liquidation_outcome(
    replayed: bool,
    job_found: bool,
    j: Job,
    user: Seq<u8>,
    min_collateral_ratio_bp: u32,
    expected_context: Seq<u8>,
    snap_found: bool,
    snap: OracleSnapshot,
    clock_slot: u64,
) -> Result<(), LendingFailure> {
    if replayed {
        Err(LendingFailure::Service(ErrorCode::AccountAlreadyInitialized))
    } else if !job_found {
        Err(LendingFailure::Consumer(LendErr::BadCoprocConfigOwner))
    } else if !(j.status is Finalized) {
        Err(LendingFailure::Consumer(LendErr::JobNotFinalized))
    } else if j.function_id != FID_LIQ_ELIGIBILITY {
        Err(LendingFailure::Consumer(LendErr::WrongJobFunction))
    } else if j.submitter@ != user {
        Err(LendingFailure::Consumer(LendErr::NotJobSubmitter))
    } else if j.expected_code_digest@ != sha256_of(
        liq_eligibility_ir_bytes(min_collateral_ratio_bp),
    ) {
        Err(LendingFailure::Consumer(LendErr::BadIRDigest))
    } else if j.context_data@ != expected_context {
        Err(LendingFailure::Consumer(LendErr::BadContextData))
    } else if j.external_ptr_hash is None {
        Err(LendingFailure::Consumer(LendErr::MissingExternalPtr))
    } else if !snap_found {
        Err(LendingFailure::Consumer(LendErr::BadCoprocConfigOwner))
    } else if (j.external_ptr_hash->0)@ != snap.ptr_hash@ {
        Err(LendingFailure::Consumer(LendErr::SnapshotHashMismatch))
    } else if snap.ptr_hash@ != keccak256_of(
        oracle_snap_msg(snap.oracle_program@, snap.feed@, snap.price_e9, snap.conf_e9,
            snap.observed_slot),
    ) {
        Err(LendingFailure::Consumer(LendErr::OraclePtrRehashMismatch))
    } else if clock_slot as int > snap.observed_slot + ORACLE_FRESHNESS_SLOTS {
        Err(LendingFailure::Consumer(LendErr::OracleStale))
    } else {
        Ok(())
    }
}

/// Fixed asset-pair label of an emitted liquidation ticket.
pub open spec fn asset_pair_bytes() -> Seq<u8> {
    seq![83u8, 79, 76, 47, 85, 83, 68, 67, 0, 0, 0, 0, 0, 0, 0, 0]
}

impl Ledger {
    /// Consumer side of a cross-invoked submission: derives the job address
    /// from its own commitment and principal, rejects the call before any
    /// cross-invocation if it disagrees with the target, then invokes the
    /// coordination service's submission synchronously.
    pub fn cpi_submit_job_inline(
        &mut self,
        coproc_job: &[u8; 32],
        user: &[u8; 32],
        commitment: &[u8; 32],
        da_ptr_hash: Option<[u8; 32]>,
        reveal_after_slot: u64,
        function_id: u16,
        context_data: &[u8; 32],
        ir_bytes: &Vec<u8>,
        slot: u64,
    ) -> (r: Result<JobSubmitted, LendingFailure>)
        requires
            old(self).wf(),
            old(self).config is Some,
        ensures
            final(self).wf(),
            cpi_submit_post(
                *old(self),
                *final(self),
                r,
                *coproc_job,
                *user,
                *commitment,
                da_ptr_hash,
                reveal_after_slot,
                function_id,
                *context_data,
                ir_bytes@,
                slot,
            ),
    {
        let (expected, _bump) = derive_job_address(commitment, user);
        if !b32_eq(&expected, coproc_job) {
            return Err(LendingFailure::Consumer(LendErr::BadJobPda));
        }
        match self.submit_job_inline(
            user,
            commitment,
            da_ptr_hash,
            reveal_after_slot,
            function_id,
            context_data,
            ir_bytes,
            slot,
        ) {
            Ok(ev) => Ok(ev),
            Err(e) => Err(LendingFailure::Service(e)),
        }
    }

    /// Custody-in plus submission of the deposit check. The preceding
    /// custody transfer itself is the opaque ledger-transfer service's step;
    /// the whole transaction is atomic, so if this submission fails the
    /// transfer does not persist.
    pub fn deposit_and_submit_job(
        &mut self,
        user: &[u8; 32],
        base: &CpiSubmitJobCommonArgs,
        coproc_job: &[u8; 32],
        slot: u64,
    ) -> (r: Result<JobSubmitted, LendingFailure>)
        requires
            old(self).wf(),
            old(self).config is Some,
        ensures
            final(self).wf(),
            cpi_submit_post(
                *old(self),
                *final(self),
                r,
                *coproc_job,
                *user,
                base.commitment,
                base.da_ptr_hash,
                base.reveal_after_slot,
                FID_DEPOSIT,
                base.context_data,
                deposit_ir_bytes(),
                slot,
            ),
    {
        let ir = build_deposit_ir();
        self.cpi_submit_job_inline(
            coproc_job,
            user,
            &base.commitment,
            base.da_ptr_hash,
            base.reveal_after_slot,
            FID_DEPOSIT,
            &base.context_data,
            &ir,
            slot,
        )
    }

    /// Submission of the borrow check for a loan-to-value bound.
    pub fn submit_borrow_job(
        &mut self,
        user: &[u8; 32],
        base: &CpiSubmitJobCommonArgs,
        ltv_basis_points: u32,
        coproc_job: &[u8; 32],
        slot: u64,
    ) -> (r: Result<JobSubmitted, LendingFailure>)
        requires
            old(self).wf(),
            old(self).config is Some,
        ensures
            final(self).wf(),
            cpi_submit_post(
                *old(self),
                *final(self),
                r,
                *coproc_job,
                *user,
                base.commitment,
                base.da_ptr_hash,
                base.reveal_after_slot,
                FID_BORROW,
                base.context_data,
                borrow_ir_bytes(ltv_basis_points),
                slot,
            ),
    {
        let ir = build_borrow_ir(ltv_basis_points);
        self.cpi_submit_job_inline(
            coproc_job,
            user,
            &base.commitment,
            base.da_ptr_hash,
            base.reveal_after_slot,
            FID_BORROW,
            &base.context_data,
            &ir,
            slot,
        )
    }

    /// Submission of the withdraw check.
    pub fn submit_withdraw_job(
        &mut self,
        user: &[u8; 32],
        base: &CpiSubmitJobCommonArgs,
        coproc_job: &[u8; 32],
        slot: u64,
    ) -> (r: Result<JobSubmitted, LendingFailure>)
        requires
            old(self).wf(),
            old(self).config is Some,
        ensures
            final(self).wf(),
            cpi_submit_post(
                *old(self),
                *final(self),
                r,
                *coproc_job,
                *user,
                base.commitment,
                base.da_ptr_hash,
                base.reveal_after_slot,
                FID_WITHDRAW,
                base.context_data,
                withdraw_ir_bytes(),
                slot,
            ),
    {
        let ir = build_withdraw_ir();
        self.cpi_submit_job_inline(
            coproc_job,
            user,
            &base.commitment,
            base.da_ptr_hash,
            base.reveal_after_slot,
            FID_WITHDRAW,
            &base.context_data,
            &ir,
            slot,
        )
    }

    /// Submission of the liquidation-eligibility check for a minimum
    /// collateral ratio.
    pub fn submit_liq_eligibility_job(
        &mut self,
        user: &[u8; 32],
        base: &CpiSubmitJobCommonArgs,
        min_collateral_ratio_bp: u32,
        coproc_job: &[u8; 32],
        slot: u64,
    ) -> (r: Result<JobSubmitted, LendingFailure>)
        requires
            old(self).wf(),
            old(self).config is Some,
        ensures
            final(self).wf(),
            cpi_submit_post(
                *old(self),
                *final(self),
                r,
                *coproc_job,
                *user,
                base.commitment,
                base.da_ptr_hash,
                base.reveal_after_slot,
                FID_LIQ_ELIGIBILITY,
                base.context_data,
                liq_eligibility_ir_bytes(min_collateral_ratio_bp),
                slot,
            ),
    {
        let ir = build_liq_eligibility_ir(min_collateral_ratio_bp);
        self.cpi_submit_job_inline(
            coproc_job,
            user,
            &base.commitment,
            base.da_ptr_hash,
            base.reveal_after_slot,
            FID_LIQ_ELIGIBILITY,
            &base.context_data,
            &ir,
            slot,
        )
    }

    /// Releases a withdraw against a finalized job. On success the returned
    /// amount is what the embedding transfers from the vault to the user,
    /// and the job's consumption marker is laid down, so a second execution
    /// of the same job fails before any other check.
    pub fn execute_withdraw(
        &mut self,
        user: &[u8; 32],
        mint: &[u8; 32],
        amount: u64,
        coproc_job: &[u8; 32],
        vault_balance: u64,
    ) -> (r: Result<u64, LendingFailure>)
        requires
            old(self).wf(),
        ensures
            final(self).wf(),
            final(self).config == old(self).config,
            final(self).jobs@ == old(self).jobs@,
            final(self).snapshots@ == old(self).snapshots@,
            ({
                let marker = consumed_address(coproc_job@);
                let outcome = execute_withdraw_outcome(
                    has_marker(old(self).consumed@, marker),
                    has_job_at(old(self).jobs@, coproc_job@),
                    job_at(old(self).jobs@, coproc_job@),
                    user@,
                    mint@,
                    amount,
                    vault_balance,
                );
                &&& outcome is Err ==> r == Result::<u64, LendingFailure>::Err(outcome->Err_0)
                    && final(self).consumed@ == old(self).consumed@
                &&& outcome is Ok ==> {
                    &&& r == Result::<u64, LendingFailure>::Ok(amount)
                    &&& final(self).consumed@.len() == old(self).consumed@.len() + 1
                    &&& final(self).consumed@ == old(self).consumed@.push(
                        final(self).consumed@.last(),
                    )
                    &&& final(self).consumed@.last()@ == marker
                }
            }),
    {
        let (marker, _bump) = derive_consumed_address(coproc_job);
        if self.marker_exists(&marker) {
            return Err(LendingFailure::Service(ErrorCode::AccountAlreadyInitialized));
        }
        let j = match self.find_job(coproc_job) {
            Some(i) => self.jobs[i].job,
            None => {
                return Err(LendingFailure::Consumer(LendErr::BadCoprocConfigOwner));
            },
        };
        if !matches!(j.status, crate::records::JobStatus::Finalized) {
            return Err(LendingFailure::Consumer(LendErr::JobNotFinal));
        }
        if j.function_id != FID_WITHDRAW {
            return Err(LendingFailure::Consumer(LendErr::BadFunction));
        }
        if !b32_eq(&j.submitter, user) {
            return Err(LendingFailure::Consumer(LendErr::NotJobSubmitter));
        }
        let expected_ir = build_withdraw_ir();
        let expected_digest = sha256(&expected_ir);
        if !b32_eq(&j.expected_code_digest, &expected_digest) {
            return Err(LendingFailure::Consumer(LendErr::BadIRDigest));
        }
        let expected_ctx = CpiSubmitJobCommonArgs::create_withdraw_context(user, mint, amount, 0);
        if !b32_eq(&j.context_data, &expected_ctx) {
            return Err(LendingFailure::Consumer(LendErr::BadContextData));
        }
        if vault_balance < amount {
            return Err(LendingFailure::Consumer(LendErr::InsufficientVaultBalance));
        }
        self.consumed.push(marker);
        Ok(amount)
    }

    /// Releases a liquidation payout against a finalized eligibility job.
    /// The job must be the caller's own; its stored code digest must equal
    /// the digest of the canonical eligibility descriptor recomputed here for
    /// `min_collateral_ratio_bp`; its stored context must equal
    /// `expected_context`, which the caller recomputes from the operation's
    /// actual parameters with `create_oracle_anchored_ctx`; and the bound
    /// oracle snapshot must re-verify and still satisfy the freshness bound
    /// at `clock_slot`. `mint` names the asset whose vault the embedding pays
    /// from. On success the returned amount is what the embedding transfers,
    /// and the job's consumption marker is laid down.
    pub fn execute_liquidation(
        &mut self,
        user: &[u8; 32],
        mint: &[u8; 32],
        amount: u64,
        min_collateral_ratio_bp: u32,
        expected_context: &[u8; 32],
        coproc_job: &[u8; 32],
        snapshot_addr: &[u8; 32],
        clock_slot: u64,
    ) -> (r: Result<u64, LendingFailure>)
        requires
            old(self).wf(),
        ensures
            final(self).wf(),
            final(self).config == old(self).config,
            final(self).jobs@ == old(self).jobs@,
            final(self).snapshots@ == old(self).snapshots@,
            ({
                let marker = consumed_address(coproc_job@);
                let outcome = execute_liquidation_outcome(
                    has_marker(old(self).consumed@, marker),
                    has_job_at(old(self).jobs@, coproc_job@),
                    job_at(old(self).jobs@, coproc_job@),
                    user@,
                    min_collateral_ratio_bp,
                    expected_context@,
                    has_snap_at(old(self).snapshots@, snapshot_addr@),
                    snap_at(old(self).snapshots@, snapshot_addr@),
                    clock_slot,
                );
                &&& outcome is Err ==> r == Result::<u64, LendingFailure>::Err(outcome->Err_0)
                    && final(self).consumed@ == old(self).consumed@
                &&& outcome is Ok ==> {
                    &&& r == Result::<u64, LendingFailure>::Ok(amount)
                    &&& final(self).consumed@.len() == old(self).consumed@.len() + 1
                    &&& final(self).consumed@ == old(self).consumed@.push(
                        final(self).consumed@.last(),
                    )
                    &&& final(self).consumed@.last()@ == marker
                }
            }),
    {
        let (marker, _bump) = derive_consumed_address(coproc_job);
        if self.marker_exists(&marker) {
            return Err(LendingFailure::Service(ErrorCode::AccountAlreadyInitialized));
        }
        let j = match self.find_job(coproc_job) {
            Some(i) => self.jobs[i].job,
            None => {
                return Err(LendingFailure::Consumer(LendErr::BadCoprocConfigOwner));
            },
        };
        if !matches!(j.status, crate::records::JobStatus::Finalized) {
            return Err(LendingFailure::Consumer(LendErr::JobNotFinalized));
        }
        if j.function_id != FID_LIQ_ELIGIBILITY {
            return Err(LendingFailure::Consumer(LendErr::WrongJobFunction));
        }
        if !b32_eq(&j.submitter, user) {
            return Err(LendingFailure::Consumer(LendErr::NotJobSubmitter));
        }
        let expected_ir = build_liq_eligibility_ir(min_collateral_ratio_bp);
        let expected_digest = sha256(&expected_ir);
        if !b32_eq(&j.expected_code_digest, &expected_digest) {
            return Err(LendingFailure::Consumer(LendErr::BadIRDigest));
        }
        if !b32_eq(&j.context_data, expected_context) {
            return Err(LendingFailure::Consumer(LendErr::BadContextData));
        }
        let eph = match &j.external_ptr_hash {
            Some(h) => *h,
            None => {
                return Err(LendingFailure::Consumer(LendErr::MissingExternalPtr));
            },
        };
        let snap = match self.find_snapshot(snapshot_addr) {
            Some(i) => self.snapshots[i].snap,
            None => {
                return Err(LendingFailure::Consumer(LendErr::BadCoprocConfigOwner));
            },
        };
        if !b32_eq(&eph, &snap.ptr_hash) {
            return Err(LendingFailure::Consumer(LendErr::SnapshotHashMismatch));
        }
        let recomputed = oracle_ptr_hash(
            &snap.oracle_program,
            &snap.feed,
            snap.price_e9,
            snap.conf_e9,
            snap.observed_slot,
        );
        if !b32_eq(&snap.ptr_hash, &recomputed) {
            return Err(LendingFailure::Consumer(LendErr::OraclePtrRehashMismatch));
        }
        if clock_slot > snap.observed_slot && clock_slot - snap.observed_slot
            > ORACLE_FRESHNESS_SLOTS {
            return Err(LendingFailure::Consumer(LendErr::OracleStale));
        }
        self.consumed.push(marker);
        Ok(amount)
    }

    /// Reads a finalized liquidation-eligibility job and builds the
    /// off-chain-consumable ticket notification with its fixed validity
    /// window; no record changes.
    pub fn emit_liq_ticket(&self, coproc_job: &[u8; 32], slot: u64) -> (r: Result<
        LiqTicket,
        LendErr,
    >)
        requires
            self.wf(),
            slot + LIQ_TICKET_VALIDITY_SLOTS <= u64::MAX,
        ensures
            ({
                let found = has_job_at(self.jobs@, coproc_job@);
                let j = job_at(self.jobs@, coproc_job@);
                &&& !found ==> r == Result::<LiqTicket, LendErr>::Err(LendErr::BadCoprocConfigOwner)
                &&& (found && !(j.status is Finalized)) ==> r == Result::<LiqTicket, LendErr>::Err(
                    LendErr::JobNotFinal,
                )
                &&& (found && j.status is Finalized && j.function_id != FID_LIQ_ELIGIBILITY) ==> r
                    == Result::<LiqTicket, LendErr>::Err(LendErr::BadFunction)
                &&& (found && j.status is Finalized && j.function_id == FID_LIQ_ELIGIBILITY) ==> {
                    &&& r is Ok
                    &&& r->Ok_0.job == *coproc_job
                    &&& r->Ok_0.ticket_digest@ == (if j.result_commitment is Some {
                        (j.result_commitment->0)@
                    } else {
                        Seq::new(32, |i: int| 0u8)
                    })
                    &&& r->Ok_0.asset_pair@ == asset_pair_bytes()
                    &&& r->Ok_0.lot == 1000000000u64
                    &&& r->Ok_0.discount_bp == 500u16
                    &&& r->Ok_0.deadline_slot == slot + LIQ_TICKET_VALIDITY_SLOTS
                }
            }),
    {
        let j = match self.find_job(coproc_job) {
            Some(i) => self.jobs[i].job,
            None => {
                return Err(LendErr::BadCoprocConfigOwner);
            },
        };
        if !matches!(j.status, crate::records::JobStatus::Finalized) {
            return Err(LendErr::JobNotFinal);
        }
        if j.function_id != FID_LIQ_ELIGIBILITY {
            return Err(LendErr::BadFunction);
        }
        let ticket_digest = match j.result_commitment {
            Some(rc) => rc,
            None => {
                let zero: [u8; 32] = [0u8; 32];
                proof {
                    assert(zero@ =~= Seq::new(32, |i: int| 0u8));
                }
                zero
            },
        };
        let asset_pair: [u8; 16] = [83u8, 79, 76, 47, 85, 83, 68, 67, 0, 0, 0, 0, 0, 0, 0, 0];
        proof {
            assert(asset_pair@ =~= asset_pair_bytes());
        }
        Ok(
            LiqTicket {
                job: *coproc_job,
                ticket_digest,
                asset_pair,
                lot: 1000000000,
                discount_bp: 500,
                deadline_slot: slot + LIQ_TICKET_VALIDITY_SLOTS,
            },
        )
    }
}

} // verus!
