//! Deterministic record addressing.
//!
//! The collection record is stored at an address derived from the collection
//! mint's identity, so any caller can locate the record given only the mint.
//! The derivation itself is the runtime's program-derived-address scheme, a
//! hash of the seeds and the program id; it is performed by the outside
//! crate and named here rather than restated.

use vstd::prelude::*;

use crate::keys::Pubkey;
use anchor_lang::solana_program::pubkey::Pubkey as RuntimeKey;

verus! {

/// First half of this program's own 32-byte identity.
pub const PROGRAM_ID_HI: u128 = 0xf710c41b2726be0aeaf99b95d2c57909;

/// Second half of this program's own 32-byte identity.
pub const PROGRAM_ID_LO: u128 = 0x2f73e15ed54e488f613227e8936297dd;

/// This program's own identity, under which collection records are stored.
pub open spec fn spec_program_id() -> Pubkey {
    Pubkey { hi: PROGRAM_ID_HI, lo: PROGRAM_ID_LO }
}

/// This program's own identity, under which collection records are stored.
pub fn program_id() -> (r: Pubkey)
    ensures
        r == spec_program_id(),
{
    Pubkey { hi: PROGRAM_ID_HI, lo: PROGRAM_ID_LO }
}

/// The fixed first seed of every collection record address: the bytes of
/// the word `collection`.
pub open spec fn spec_collection_seed() -> Seq<u8> {
    seq![99u8, 111u8, 108u8, 108u8, 101u8, 99u8, 116u8, 105u8, 111u8, 110u8]
}

/// The fixed first seed of every collection record address.
fn collection_seed() -> (r: Vec<u8>)
    ensures
        r@ == spec_collection_seed(),
{
    let mut v: Vec<u8> = Vec::new();
    v.push(99u8);
    v.push(111u8);
    v.push(108u8);
    v.push(108u8);
    v.push(101u8);
    v.push(99u8);
    v.push(116u8);
    v.push(105u8);
    v.push(111u8);
    v.push(110u8);
    proof {
        assert(v@ =~= spec_collection_seed());
    }
    v
}

/// What the runtime's program-derived-address search returns for a seed, a
/// 32-byte key used as the second seed, and a program id; `None` when no
/// bump seed yields an address off the curve.
pub uninterp spec fn derived_program_address(
    seed: Seq<u8>,
    key_hi: u128,
    key_lo: u128,
    program_hi: u128,
    program_lo: u128,
) -> Option<(u128, u128)>;

/// Relies on `Pubkey::try_find_program_address` of the solana pubkey crate,
/// reached through `anchor_lang`: the returned address is a function of the
/// seeds and the program id alone, and `None` is returned exactly when the
/// bump-seed search fails.
#[verifier::external_body]
fn try_derive_address(seed: &Vec<u8>, key: &Pubkey, program_id: &Pubkey) -> (r: Option<Pubkey>)
    ensures
        (match r {
            Some(a) => derived_program_address(seed@, key.hi, key.lo, program_id.hi, program_id.lo)
                == Some((a.hi, a.lo)),
            None => derived_program_address(seed@, key.hi, key.lo, program_id.hi, program_id.lo)
                is None,
        }),
{
    let (mut kb, mut pb) = ([0u8; 32], [0u8; 32]);
    kb[..16].copy_from_slice(&key.hi.to_be_bytes());
    kb[16..].copy_from_slice(&key.lo.to_be_bytes());
    pb[..16].copy_from_slice(&program_id.hi.to_be_bytes());
    pb[16..].copy_from_slice(&program_id.lo.to_be_bytes());
    match RuntimeKey::try_find_program_address(&[seed.as_slice(), &kb], &RuntimeKey::new_from_array(pb)) {
        Some((a, _)) => {
            let ab = a.to_bytes();
            Some(Pubkey { hi: u128::from_be_bytes(ab[..16].try_into().unwrap()), lo: u128::from_be_bytes(ab[16..].try_into().unwrap()) })
        }
        None => None,
    }
}

/// The address at which the record of the collection keyed by `mint` is
/// stored, or `None` when the runtime's derivation fails for it.
pub open spec fn collection_record_address(mint: Pubkey) -> Option<Pubkey> {
    match derived_program_address(spec_collection_seed(), mint.hi, mint.lo, PROGRAM_ID_HI, PROGRAM_ID_LO) {
        Some(hl) => Some(Pubkey { hi: hl.0, lo: hl.1 }),
        None => None,
    }
}

/// Derives the address of the record of the collection keyed by `mint`.
pub fn derive_collection_record_address(mint: &Pubkey) -> (r: Option<Pubkey>)
    ensures
        r == collection_record_address(*mint),
{
    let seed = collection_seed();
    let pid = program_id();
    try_derive_address(&seed, mint, &pid)
}

} // verus!
