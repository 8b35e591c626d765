use anchor_lang::solana_program::hash::hash as sha256_ref;
use anchor_lang::solana_program::keccak::hashv as keccak_ref;
use anchor_lang::solana_program::pubkey::Pubkey;

use confidential_coprocessor::addresses::{
    coproc_id, derive_consumed_address, derive_job_address, derive_snapshot_address,
    derive_vault_address, derive_vault_auth_address, lending_id,
};
use confidential_coprocessor::hashing::{b32_eq, keccak256, sha256};
use confidential_coprocessor::ledger::{oracle_ptr_hash, Ledger};
use confidential_coprocessor::lending::{
    build_borrow_ir, build_deposit_ir, build_liq_eligibility_ir, build_withdraw_ir, disc,
    encode_submit_job_args, CpiSubmitJobCommonArgs, SubmitJobInlineArgs,
};

fn key(tag: u8) -> [u8; 32] {
    [tag; 32]
}

#[test]
fn stored_digest_equals_an_independent_hash_of_the_descriptor() {
    let mut l = Ledger::new();
    l.initialize_config(&key(1), &key(2), 5).unwrap();
    let blob: Vec<u8> = (0u16..600).map(|x| (x % 251) as u8).collect();
    let ev = l.submit_job_inline(&key(5), &key(3), None, 0, 300, &key(4), &blob, 10).unwrap();
    let independent = sha256_ref(&blob).to_bytes();
    assert_eq!(ev.expected_code_digest, independent);
    assert_eq!(l.jobs[0].job.expected_code_digest, independent);
    // the blob itself is never stored, only its digest
    assert_ne!(&ev.expected_code_digest[..], &blob[..32]);
}

#[test]
fn hash_helpers_agree_with_the_reference_implementations() {
    let data: Vec<u8> = (0u16..300).map(|x| (x * 7 % 256) as u8).collect();
    assert_eq!(sha256(&data), sha256_ref(&data).to_bytes());
    assert_eq!(keccak256(&data), keccak_ref(&[&data]).to_bytes());
    assert_ne!(sha256(&data), keccak256(&data));
}

#[test]
fn oracle_ptr_hash_matches_the_multi_slice_reference_digest() {
    let op = key(11);
    let feed = key(12);
    let price: i64 = -42_000_000_000;
    let conf: u64 = 5_000_000;
    let slot: u64 = 123_456;
    let reference = keccak_ref(&[
        b"oracle-snap-v1",
        &op,
        &feed,
        &price.to_le_bytes(),
        &conf.to_le_bytes(),
        &slot.to_le_bytes(),
    ])
    .to_bytes();
    assert_eq!(oracle_ptr_hash(&op, &feed, price, conf, slot), reference);
    // every field is load-bearing
    assert_ne!(oracle_ptr_hash(&op, &feed, price, conf, slot + 1), reference);
    assert_ne!(oracle_ptr_hash(&op, &feed, -price, conf, slot), reference);
}

#[test]
fn derived_addresses_match_the_reference_derivation() {
    let commitment = key(3);
    let user = key(5);
    let mint = key(6);

    let coproc = Pubkey::new_from_array(coproc_id());
    let lending = Pubkey::new_from_array(lending_id());

    let (expected, expected_bump) =
        Pubkey::find_program_address(&[b"job", &commitment, &user], &coproc);
    let (got, got_bump) = derive_job_address(&commitment, &user);
    assert_eq!(got, expected.to_bytes());
    assert_eq!(got_bump, expected_bump);

    let observed: u64 = 777;
    let (expected, _) = Pubkey::find_program_address(
        &[b"oraclesnap", &key(11), &key(12), &observed.to_le_bytes()],
        &coproc,
    );
    assert_eq!(derive_snapshot_address(&key(11), &key(12), observed).0, expected.to_bytes());

    let (job_addr, _) = derive_job_address(&commitment, &user);
    let (expected, _) = Pubkey::find_program_address(&[b"job-consumed", &job_addr], &lending);
    assert_eq!(derive_consumed_address(&job_addr).0, expected.to_bytes());

    let (expected, _) = Pubkey::find_program_address(&[b"vault", &mint, &user], &lending);
    assert_eq!(derive_vault_address(&mint, &user).0, expected.to_bytes());

    let (expected, _) = Pubkey::find_program_address(&[b"vault-auth", &mint], &lending);
    assert_eq!(derive_vault_auth_address(&mint).0, expected.to_bytes());
}

#[test]
fn byte_equality_helper_is_exact() {
    let a = key(9);
    let mut b = key(9);
    assert!(b32_eq(&a, &b));
    b[31] ^= 0x80;
    assert!(!b32_eq(&a, &b));
}

#[test]
fn context_hashes_match_the_reference_digest_and_tags_separate_purposes() {
    let user = key(5);
    let mint = key(6);
    let pid = lending_id();
    let amount: u64 = 500;
    let nonce: u64 = 0;

    let expected = keccak_ref(&[
        b"withdraw-v1",
        &pid,
        &user,
        &mint,
        &amount.to_le_bytes(),
        &nonce.to_le_bytes(),
    ])
    .to_bytes();
    assert_eq!(
        CpiSubmitJobCommonArgs::create_withdraw_context(&user, &mint, amount, nonce),
        expected
    );

    let deposit = CpiSubmitJobCommonArgs::create_deposit_context(&user, &mint, amount, nonce);
    let borrow = CpiSubmitJobCommonArgs::create_borrow_context(&user, &mint, amount, nonce);
    let withdraw = CpiSubmitJobCommonArgs::create_withdraw_context(&user, &mint, amount, nonce);
    assert_ne!(deposit, borrow);
    assert_ne!(deposit, withdraw);
    assert_ne!(borrow, withdraw);

    let anchored = CpiSubmitJobCommonArgs::create_oracle_anchored_ctx(
        b"liq-v1", &user, &mint, amount, nonce, &key(11), &key(12), 100, 50, 300,
    );
    let expected = keccak_ref(&[
        b"liq-v1",
        &pid,
        &user,
        &mint,
        &amount.to_le_bytes(),
        &nonce.to_le_bytes(),
        &key(11),
        &key(12),
        &100u64.to_le_bytes(),
        &50u16.to_le_bytes(),
        &300u64.to_le_bytes(),
    ])
    .to_bytes();
    assert_eq!(anchored, expected);
}

#[test]
fn contexts_differing_only_in_amount_or_nonce_never_collide() {
    let user = key(5);
    let mint = key(6);
    let mut seen: Vec<[u8; 32]> = Vec::with_capacity(10_000);
    for amount in 0u64..5_000 {
        for nonce in 0u64..2 {
            seen.push(CpiSubmitJobCommonArgs::create_withdraw_context(&user, &mint, amount, nonce));
        }
    }
    seen.sort_unstable();
    for pair in seen.windows(2) {
        assert_ne!(pair[0], pair[1]);
    }
}

#[test]
fn descriptor_builders_emit_the_exact_bytecode() {
    assert_eq!(build_deposit_ir(), vec![0x01, 0x00, 0x01, 0x02]);
    assert_eq!(build_withdraw_ir(), vec![0x02, 0x00, 0x01, 0x02]);

    let ltv: u32 = 8_000;
    let mut expected = vec![0x04, 0x03, 0x02, 0x00];
    expected.extend_from_slice(&ltv.to_le_bytes());
    expected.extend_from_slice(&[0x10, 0x00, 0x01, 0x03]);
    assert_eq!(build_borrow_ir(ltv), expected);

    let ratio: u32 = 11_000;
    let mut expected = vec![0x04, 0x03, 0x02, 0x00];
    expected.extend_from_slice(&ratio.to_le_bytes());
    expected.extend_from_slice(&[0x10, 0x00, 0x01, 0x03]);
    assert_eq!(build_liq_eligibility_ir(ratio), expected);
}

#[test]
fn discriminator_is_the_leading_sha256_of_the_tagged_name() {
    let d = disc("submit_job_inline");
    let reference = sha256_ref(b"global:submit_job_inline").to_bytes();
    assert_eq!(&d[..], &reference[..8]);
    assert_ne!(disc("submit_job_inline"), disc("finalize"));
}

#[test]
fn instruction_encoding_is_discriminator_then_fields_in_order() {
    let args = SubmitJobInlineArgs {
        commitment: key(3),
        da_ptr_hash: Some(key(7)),
        reveal_after_slot: 99,
        function_id: 300,
        context_data: key(4),
        ir_bytes: vec![0x02, 0x00, 0x01, 0x02],
    };
    let data = encode_submit_job_args(&args);

    let mut expected = sha256_ref(b"global:submit_job_inline").to_bytes()[..8].to_vec();
    expected.extend_from_slice(&key(3));
    expected.push(1);
    expected.extend_from_slice(&key(7));
    expected.extend_from_slice(&99u64.to_le_bytes());
    expected.extend_from_slice(&300u16.to_le_bytes());
    expected.extend_from_slice(&key(4));
    expected.extend_from_slice(&4u32.to_le_bytes());
    expected.extend_from_slice(&[0x02, 0x00, 0x01, 0x02]);
    assert_eq!(data, expected);

    let none_args = SubmitJobInlineArgs { da_ptr_hash: None, ..args };
    let data = encode_submit_job_args(&none_args);
    assert_eq!(data[40], 0);
    assert_eq!(data.len(), expected.len() - 32);
}
