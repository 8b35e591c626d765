//! Deterministic record addressing.
//!
//! Every persisted record lives at an address derived purely from a domain
//! tag and the record's key fields, so a record's location is discoverable
//! without a lookup table and two records with the same key collide by
//! construction.

use vstd::prelude::*;

use crate::hashing::{b32_to_vec, derive_address, pda_of};

verus! {

/// Identity of the coordination-service deployment. Job, configuration and
/// snapshot records are derived under it.
pub open spec fn coproc_program_id() -> Seq<u8> {
    seq![
        166u8, 129, 52, 241, 178, 80, 15, 92, 187, 227, 2, 162, 36, 113, 142, 201,
        25, 89, 98, 105, 213, 80, 72, 180, 52, 66, 4, 137, 101, 54, 21, 201,
    ]
}

/// Identity of the lending-style consumer deployment. Vaults and consumption
/// markers are derived under it, and its context hashes are salted with it.
pub open spec fn lending_program_id() -> Seq<u8> {
    seq![
        89u8, 234, 249, 243, 44, 249, 31, 147, 103, 30, 212, 91, 115, 161, 81, 70,
        58, 197, 87, 35, 221, 205, 92, 62, 177, 221, 114, 206, 91, 77, 247, 108,
    ]
}

/// The coordination-service identity as a key.
pub fn coproc_id() -> (r: [u8; 32])
    ensures
        r@ == coproc_program_id(),
{
    let r: [u8; 32] = [
        166u8, 129, 52, 241, 178, 80, 15, 92, 187, 227, 2, 162, 36, 113, 142, 201,
        25, 89, 98, 105, 213, 80, 72, 180, 52, 66, 4, 137, 101, 54, 21, 201,
    ];
    proof {
        assert(r@ =~= coproc_program_id());
    }
    r
}

/// The consumer identity as a key.
pub fn lending_id() -> (r: [u8; 32])
    ensures
        r@ == lending_program_id(),
{
    let r: [u8; 32] = [
        89u8, 234, 249, 243, 44, 249, 31, 147, 103, 30, 212, 91, 115, 161, 81, 70,
        58, 197, 87, 35, 221, 205, 92, 62, 177, 221, 114, 206, 91, 77, 247, 108,
    ];
    proof {
        assert(r@ =~= lending_program_id());
    }
    r
}

/// Domain tag of job records.
pub open spec fn job_seed_bytes() -> Seq<u8> {
    seq![106u8, 111, 98]
}

/// Domain tag of the configuration record.
pub open spec fn config_seed_bytes() -> Seq<u8> {
    seq![99u8, 111, 110, 102, 105, 103]
}

/// Domain tag of oracle snapshot records.
pub open spec fn oraclesnap_seed_bytes() -> Seq<u8> {
    seq![111u8, 114, 97, 99, 108, 101, 115, 110, 97, 112]
}

/// Domain tag of consumption markers.
pub open spec fn consumed_seed_bytes() -> Seq<u8> {
    seq![106u8, 111, 98, 45, 99, 111, 110, 115, 117, 109, 101, 100]
}

/// Domain tag of custody vaults.
pub open spec fn vault_seed_bytes() -> Seq<u8> {
    seq![118u8, 97, 117, 108, 116]
}

/// Domain tag of vault signing authorities.
pub open spec fn vault_auth_seed_bytes() -> Seq<u8> {
    seq![118u8, 97, 117, 108, 116, 45, 97, 117, 116, 104]
}

/// Address of the job record keyed by a commitment and its submitter.
pub open spec fn job_address(commitment: Seq<u8>, submitter: Seq<u8>) -> Seq<u8> {
    pda_of(seq![job_seed_bytes(), commitment, submitter], coproc_program_id())
}

/// Address of the one configuration record.
pub open spec fn config_address() -> Seq<u8> {
    pda_of(seq![config_seed_bytes()], coproc_program_id())
}

/// Address of the snapshot keyed by oracle program, feed and observed tick.
pub open spec fn snapshot_address(
    oracle_program: Seq<u8>,
    feed: Seq<u8>,
    observed_slot: u64,
) -> Seq<u8> {
    pda_of(
        seq![
            oraclesnap_seed_bytes(),
            oracle_program,
            feed,
            vstd::bytes::spec_u64_to_le_bytes(observed_slot),
        ],
        coproc_program_id(),
    )
}

/// Address of the consumption marker of the job at `job_addr`.
pub open spec fn consumed_address(job_addr: Seq<u8>) -> Seq<u8> {
    pda_of(seq![consumed_seed_bytes(), job_addr], lending_program_id())
}

/// Address of the custody vault of a user for an asset.
pub open spec fn vault_address(mint: Seq<u8>, user: Seq<u8>) -> Seq<u8> {
    pda_of(seq![vault_seed_bytes(), mint, user], lending_program_id())
}

/// Address of the signing authority over all vaults of an asset.
pub open spec fn vault_auth_address(mint: Seq<u8>) -> Seq<u8> {
    pda_of(seq![vault_auth_seed_bytes(), mint], lending_program_id())
}

fn job_seed() -> (r: Vec<u8>)
    ensures
        r@ == job_seed_bytes(),
{
    let r = vec![106u8, 111, 98];
    proof {
        assert(r@ =~= job_seed_bytes());
    }
    r
}

fn config_seed() -> (r: Vec<u8>)
    ensures
        r@ == config_seed_bytes(),
{
    let r = vec![99u8, 111, 110, 102, 105, 103];
    proof {
        assert(r@ =~= config_seed_bytes());
    }
    r
}

fn oraclesnap_seed() -> (r: Vec<u8>)
    ensures
        r@ == oraclesnap_seed_bytes(),
{
    let r = vec![111u8, 114, 97, 99, 108, 101, 115, 110, 97, 112];
    proof {
        assert(r@ =~= oraclesnap_seed_bytes());
    }
    r
}

fn consumed_seed() -> (r: Vec<u8>)
    ensures
        r@ == consumed_seed_bytes(),
{
    let r = vec![106u8, 111, 98, 45, 99, 111, 110, 115, 117, 109, 101, 100];
    proof {
        assert(r@ =~= consumed_seed_bytes());
    }
    r
}

fn vault_seed() -> (r: Vec<u8>)
    ensures
        r@ == vault_seed_bytes(),
{
    let r = vec![118u8, 97, 117, 108, 116];
    proof {
        assert(r@ =~= vault_seed_bytes());
    }
    r
}

fn vault_auth_seed() -> (r: Vec<u8>)
    ensures
        r@ == vault_auth_seed_bytes(),
{
    let r = vec![118u8, 97, 117, 108, 116, 45, 97, 117, 116, 104];
    proof {
        assert(r@ =~= vault_auth_seed_bytes());
    }
    r
}

/// Derives the address and bump of the job record for a commitment and its
/// submitter.
pub fn derive_job_address(commitment: &[u8; 32], submitter: &[u8; 32]) -> (r: ([u8; 32], u8))
    ensures
        r.0@ == job_address(commitment@, submitter@),
{
    let mut seeds: Vec<Vec<u8>> = Vec::new();
    seeds.push(job_seed());
    seeds.push(b32_to_vec(commitment));
    seeds.push(b32_to_vec(submitter));
    let pid = coproc_id();
    proof {
        assert(seeds@.map_values(|s: Vec<u8>| s@) =~= seq![
            job_seed_bytes(),
            commitment@,
            submitter@,
        ]);
    }
    derive_address(&seeds, &pid)
}

/// Derives the address and bump of the configuration record.
pub fn derive_config_address() -> (r: ([u8; 32], u8))
    ensures
        r.0@ == config_address(),
{
    let mut seeds: Vec<Vec<u8>> = Vec::new();
    seeds.push(config_seed());
    let pid = coproc_id();
    proof {
        assert(seeds@.map_values(|s: Vec<u8>| s@) =~= seq![config_seed_bytes()]);
    }
    derive_address(&seeds, &pid)
}

/// Derives the address and bump of a snapshot record.
pub fn derive_snapshot_address(
    oracle_program: &[u8; 32],
    feed: &[u8; 32],
    observed_slot: u64,
) -> (r: ([u8; 32], u8))
    ensures
        r.0@ == snapshot_address(oracle_program@, feed@, observed_slot),
{
    let mut seeds: Vec<Vec<u8>> = Vec::new();
    seeds.push(oraclesnap_seed());
    seeds.push(b32_to_vec(oracle_program));
    seeds.push(b32_to_vec(feed));
    seeds.push(vstd::bytes::u64_to_le_bytes(observed_slot));
    let pid = coproc_id();
    proof {
        assert(seeds@.map_values(|s: Vec<u8>| s@) =~= seq![
            oraclesnap_seed_bytes(),
            oracle_program@,
            feed@,
            vstd::bytes::spec_u64_to_le_bytes(observed_slot),
        ]);
    }
    derive_address(&seeds, &pid)
}

/// Derives the address and bump of the consumption marker of a job.
pub fn derive_consumed_address(job_addr: &[u8; 32]) -> (r: ([u8; 32], u8))
    ensures
        r.0@ == consumed_address(job_addr@),
{
    let mut seeds: Vec<Vec<u8>> = Vec::new();
    seeds.push(consumed_seed());
    seeds.push(b32_to_vec(job_addr));
    let pid = lending_id();
    proof {
        assert(seeds@.map_values(|s: Vec<u8>| s@) =~= seq![consumed_seed_bytes(), job_addr@]);
    }
    derive_address(&seeds, &pid)
}

/// Derives the address and bump of a user's custody vault for an asset.
pub fn derive_vault_address(mint: &[u8; 32], user: &[u8; 32]) -> (r: ([u8; 32], u8))
    ensures
        r.0@ == vault_address(mint@, user@),
{
    let mut seeds: Vec<Vec<u8>> = Vec::new();
    seeds.push(vault_seed());
    seeds.push(b32_to_vec(mint));
    seeds.push(b32_to_vec(user));
    let pid = lending_id();
    proof {
        assert(seeds@.map_values(|s: Vec<u8>| s@) =~= seq![vault_seed_bytes(), mint@, user@]);
    }
    derive_address(&seeds, &pid)
}

/// Derives the address and bump of the vault authority of an asset.
pub fn derive_vault_auth_address(mint: &[u8; 32]) -> (r: ([u8; 32], u8))
    ensures
        r.0@ == vault_auth_address(mint@),
{
    let mut seeds: Vec<Vec<u8>> = Vec::new();
    seeds.push(vault_auth_seed());
    seeds.push(b32_to_vec(mint));
    let pid = lending_id();
    proof {
        assert(seeds@.map_values(|s: Vec<u8>| s@) =~= seq![vault_auth_seed_bytes(), mint@]);
    }
    derive_address(&seeds, &pid)
}

} // verus!
