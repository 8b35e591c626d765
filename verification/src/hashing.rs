//! Digest and address primitives shared by the coordination service and its
//! consumers.
//!
//! Every commitment in the protocol bottoms out in one of three outside
//! primitives: a SHA-256 digest, a Keccak-256 digest, or a derived ledger
//! address. Each is deterministic in its inputs, so each is given an
//! uninterpreted name here; the verified layers above reason purely in terms
//! of those names.

use vstd::prelude::*;

verus! {

/// Digest that SHA-256 assigns to a byte string. The value is a pure
/// function of the bytes; nothing further is assumed about it.
pub uninterp spec fn sha256_of(data: Seq<u8>) -> Seq<u8>;

/// Digest that Keccak-256 assigns to a byte string.
pub uninterp spec fn keccak256_of(data: Seq<u8>) -> Seq<u8>;

/// Address that the ledger's derivation scheme assigns to a seed list under
/// a program identity.
pub uninterp spec fn pda_of(seeds: Seq<Seq<u8>>, program_id: Seq<u8>) -> Seq<u8>;

/// Relies on `anchor_lang::solana_program::hash::hash`, the SHA-256 helper:
/// the digest depends on the input bytes alone.
#[verifier::external_body]
pub fn sha256(data: &Vec<u8>) -> (r: [u8; 32])
    ensures
        r@ == sha256_of(data@),
{
    anchor_lang::solana_program::hash::hash(data.as_slice()).to_bytes()
}

/// Relies on `anchor_lang::solana_program::keccak::hashv`, which hashes the
/// concatenation of the given slices; called on a single slice it is the
/// Keccak-256 digest of those bytes alone.
#[verifier::external_body]
pub fn keccak256(data: &Vec<u8>) -> (r: [u8; 32])
    ensures
        r@ == keccak256_of(data@),
{
    anchor_lang::solana_program::keccak::hashv(&[data.as_slice()]).to_bytes()
}

/// Relies on `Pubkey::find_program_address`: the returned address is a pure
/// function of the seed list and the program identity, so two calls on equal
/// inputs agree. The bound on the seed count and on each seed's length keeps
/// the call inside the range its source accepts; a viable bump seed is
/// assumed to exist for such seed lists, which the derivation scheme
/// guarantees for all but a negligible fraction of inputs. Nothing is
/// claimed about the returned bump byte.
#[verifier::external_body]
pub fn derive_address(seeds: &Vec<Vec<u8>>, program_id: &[u8; 32]) -> (r: ([u8; 32], u8))
    requires
        seeds@.len() <= 15,
        forall|i: int| 0 <= i < seeds@.len() ==> (#[trigger] seeds@[i])@.len() <= 32,
    ensures
        r.0@ == pda_of(seeds@.map_values(|s: Vec<u8>| s@), program_id@),
{
    let refs: Vec<&[u8]> = seeds.iter().map(|s| s.as_slice()).collect();
    let pid = anchor_lang::solana_program::pubkey::Pubkey::new_from_array(*program_id);
    let (key, bump) =
        anchor_lang::solana_program::pubkey::Pubkey::find_program_address(refs.as_slice(), &pid);
    (key.to_bytes(), bump)
}

/// Byte-for-byte equality of two 32-byte values.
pub fn b32_eq(a: &[u8; 32], b: &[u8; 32]) -> (r: bool)
    ensures
        r <==> a@ == b@,
{
    let mut i: usize = 0;
    while i < 32
        invariant
            0 <= i <= 32,
            forall|j: int| 0 <= j < i ==> a@[j] == b@[j],
        decreases 32 - i,
    {
        if a[i] != b[i] {
            assert(a@[i as int] != b@[i as int]);
            return false;
        }
        i = i + 1;
    }
    assert(a@ =~= b@);
    true
}

/// Copy of a 32-byte value as a growable byte vector.
pub fn b32_to_vec(a: &[u8; 32]) -> (r: Vec<u8>)
    ensures
        r@ == a@,
{
    vstd::slice::slice_to_vec(a.as_slice())
}

/// Appends a 32-byte value to a message under construction.
pub fn push_b32(msg: &mut Vec<u8>, a: &[u8; 32])
    ensures
        final(msg)@ == old(msg)@ + a@,
{
    msg.extend_from_slice(a.as_slice());
}

/// Appends the little-endian bytes of a 64-bit value.
pub fn push_u64_le(msg: &mut Vec<u8>, x: u64)
    ensures
        final(msg)@ == old(msg)@ + vstd::bytes::spec_u64_to_le_bytes(x),
{
    let mut tail = vstd::bytes::u64_to_le_bytes(x);
    msg.append(&mut tail);
}

/// Appends the little-endian bytes of a 32-bit value.
pub fn push_u32_le(msg: &mut Vec<u8>, x: u32)
    ensures
        final(msg)@ == old(msg)@ + vstd::bytes::spec_u32_to_le_bytes(x),
{
    let mut tail = vstd::bytes::u32_to_le_bytes(x);
    msg.append(&mut tail);
}

/// Appends the little-endian bytes of a 16-bit value.
pub fn push_u16_le(msg: &mut Vec<u8>, x: u16)
    ensures
        final(msg)@ == old(msg)@ + vstd::bytes::spec_u16_to_le_bytes(x),
{
    let mut tail = vstd::bytes::u16_to_le_bytes(x);
    msg.append(&mut tail);
}

/// Little-endian bytes of a signed 64-bit value: its two's-complement image.
pub open spec fn spec_i64_to_le_bytes(x: i64) -> Seq<u8> {
    vstd::bytes::spec_u64_to_le_bytes(x as u64)
}

/// Appends the little-endian bytes of a signed 64-bit value.
pub fn push_i64_le(msg: &mut Vec<u8>, x: i64)
    ensures
        final(msg)@ == old(msg)@ + spec_i64_to_le_bytes(x),
{
    #[verifier::truncate]
    let u = x as u64;
    push_u64_le(msg, u);
}

} // verus!
