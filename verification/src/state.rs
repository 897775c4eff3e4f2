//! The program's persisted state and its model of the external
//! collaborators' state.
//!
//! One [`Chain`] value stands for everything this protocol can observe on
//! chain: the program-owned collection records, the metadata program's
//! records (located here by the mint they describe, standing for their
//! derived account addresses), and the token accounts the token program
//! keeps. The two well-formedness conditions [`Chain::wf`] and
//! [`Chain::inv`] are established by [`Chain::new`] and preserved by both
//! instruction handlers.

use vstd::prelude::*;

use crate::keys::Pubkey;

verus! {

/// The persisted collection record: four identities recorded verbatim at
/// creation and never mutated afterwards.
#[derive(Clone, Copy, Debug, PartialEq, Eq, Structural)]
pub struct CollectionState {
    /// The only identity permitted to mint members into this collection.
    pub authority: Pubkey,
    /// The collection token's mint.
    pub mint: Pubkey,
    /// The external metadata record describing the collection token.
    pub metadata: Pubkey,
    /// The external master-edition record of the collection token.
    pub master_edition: Pubkey,
}

/// A collection record together with the derived address it is stored at.
#[derive(Clone, Copy, Debug, PartialEq, Eq, Structural)]
pub struct CollectionRecord {
    /// The derived address of the record slot.
    pub address: Pubkey,
    /// The recorded state.
    pub state: CollectionState,
}

/// A token's claim of membership in a collection, trusted once `verified`.
#[derive(Clone, Copy, Debug, PartialEq, Eq, Structural)]
pub struct CollectionRef {
    /// Whether the collection's authority has attested the membership.
    pub verified: bool,
    /// The mint of the collection the token claims to belong to.
    pub key: Pubkey,
}

/// The metadata program's record for one mint, as far as this protocol
/// reads or writes it.
#[derive(Debug, PartialEq, Eq)]
pub struct TokenMetadata {
    /// The mint this record describes; the record is located by it.
    pub mint: Pubkey,
    /// Display name.
    pub name: String,
    /// Display symbol.
    pub symbol: String,
    /// URI of the off-chain metadata JSON.
    pub uri: String,
    /// Royalty in basis points.
    pub seller_fee_basis_points: u16,
    /// The identity allowed to update this record.
    pub update_authority: Pubkey,
    /// Whether the record may still be updated.
    pub is_mutable: bool,
    /// Whether a primary sale has happened.
    pub primary_sale_happened: bool,
    /// The collection reference, if any.
    pub collection: Option<CollectionRef>,
    /// Units of the mint in circulation; the master edition's zero
    /// print-supply caps it at one.
    pub supply: u64,
}

/// A token account of the token program: how many units of `mint` the
/// holder `owner` has, at the supplied account address.
#[derive(Clone, Copy, Debug, PartialEq, Eq, Structural)]
pub struct TokenAccount {
    /// The account's address, recorded verbatim from the invocation.
    pub address: Pubkey,
    /// The holder.
    pub owner: Pubkey,
    /// The mint held.
    pub mint: Pubkey,
    /// Units held.
    pub amount: u64,
}

/// Everything this protocol can observe on chain.
pub struct Chain {
    /// The program-owned collection records.
    pub collections: Vec<CollectionRecord>,
    /// The metadata program's records, one per mint.
    pub metadata: Vec<TokenMetadata>,
    /// The token program's accounts.
    pub token_accounts: Vec<TokenAccount>,
}

/// Whether a collection record stands at address `addr`.
pub open spec fn rec_has(s: Seq<CollectionRecord>, addr: Pubkey) -> bool {
    exists|i: int| 0 <= i < s.len() && s[i].address == addr
}

/// Whether every collection record at address `addr` records `auth` as its
/// authority. With unique addresses this says: the record at `addr`, if
/// any, is governed by `auth`.
pub open spec fn rec_authority_ok(s: Seq<CollectionRecord>, addr: Pubkey, auth: Pubkey) -> bool {
    forall|i: int| 0 <= i < s.len() && s[i].address == addr ==> s[i].state.authority == auth
}

/// Whether a metadata record for `mint` exists.
pub open spec fn md_has(s: Seq<TokenMetadata>, mint: Pubkey) -> bool {
    exists|i: int| 0 <= i < s.len() && s[i].mint == mint
}

/// Whether every metadata record for `mint` has `auth` as its update
/// authority. With unique mints this says: the record for `mint`, if any,
/// may be updated by `auth` alone.
pub open spec fn md_update_authority_ok(s: Seq<TokenMetadata>, mint: Pubkey, auth: Pubkey) -> bool {
    forall|i: int| 0 <= i < s.len() && s[i].mint == mint ==> s[i].update_authority == auth
}

/// Whether `m` carries a verified collection reference.
pub open spec fn verified_member(m: TokenMetadata) -> bool {
    match m.collection {
        Some(r) => r.verified,
        None => false,
    }
}

/// The collection mint a member's reference points at; the member's own
/// mint when it carries no reference (only read under a reference).
pub open spec fn member_collection_key(m: TokenMetadata) -> Pubkey {
    match m.collection {
        Some(r) => r.key,
        None => m.mint,
    }
}

impl Chain {
    /// Shape well-formedness: records are keyed uniquely, and token
    /// accounts only exist for minted mints.
    pub open spec fn wf(self) -> bool {
        &&& forall|i: int, j: int|
            0 <= i < j < self.collections@.len()
                ==> self.collections@[i].address != self.collections@[j].address
        &&& forall|i: int, j: int|
            0 <= i < j < self.metadata@.len() ==> self.metadata@[i].mint != self.metadata@[j].mint
        &&& forall|i: int, j: int|
            0 <= i < j < self.token_accounts@.len()
                ==> !(self.token_accounts@[i].owner == self.token_accounts@[j].owner
                    && self.token_accounts@[i].mint == self.token_accounts@[j].mint)
        &&& forall|i: int|
            0 <= i < self.token_accounts@.len()
                ==> exists|j: int|
                    0 <= j < self.metadata@.len()
                        && self.metadata@[j].mint == #[trigger] self.token_accounts@[i].mint
                        && self.metadata@[j].supply >= 1
    }

    /// The protocol invariant: a verified collection reference can only be
    /// observed on a minted token, its collection's metadata record exists,
    /// and that record's update authority is the member's own update
    /// authority — the identity that signed the verification.
    pub open spec fn inv(self) -> bool {
        &&& forall|i: int|
            0 <= i < self.metadata@.len() && verified_member(#[trigger] self.metadata@[i])
                ==> self.metadata@[i].supply == 1
        &&& forall|i: int|
            0 <= i < self.metadata@.len() && verified_member(#[trigger] self.metadata@[i])
                ==> md_has(self.metadata@, member_collection_key(self.metadata@[i]))
        &&& forall|i: int, j: int|
            0 <= i < self.metadata@.len() && 0 <= j < self.metadata@.len()
                && verified_member(self.metadata@[i])
                && self.metadata@[j].mint == member_collection_key(self.metadata@[i])
                ==> self.metadata@[j].update_authority == self.metadata@[i].update_authority
    }

    /// An empty chain: no records, no metadata, no token accounts.
    pub fn new() -> (c: Chain)
        ensures
            c.wf(),
            c.inv(),
            c.collections@.len() == 0,
            c.metadata@.len() == 0,
            c.token_accounts@.len() == 0,
    {
        Chain { collections: Vec::new(), metadata: Vec::new(), token_accounts: Vec::new() }
    }

    /// Finds the collection record stored at `addr`.
    pub fn find_record_index(&self, addr: Pubkey) -> (r: Option<usize>)
        ensures
            (match r {
                Some(i) => i < self.collections@.len() && self.collections@[i as int].address
                    == addr,
                None => !rec_has(self.collections@, addr),
            }),
    {
        let mut i: usize = 0;
        while i < self.collections.len()
            invariant
                i <= self.collections@.len(),
                forall|k: int| 0 <= k < i ==> self.collections@[k].address != addr,
            decreases self.collections@.len() - i,
        {
            if self.collections[i].address == addr {
                return Some(i);
            }
            i = i + 1;
        }
        None
    }

    /// Finds the metadata record describing `mint`.
    pub fn find_metadata_index(&self, mint: Pubkey) -> (r: Option<usize>)
        ensures
            (match r {
                Some(i) => i < self.metadata@.len() && self.metadata@[i as int].mint == mint,
                None => !md_has(self.metadata@, mint),
            }),
    {
        let mut i: usize = 0;
        while i < self.metadata.len()
            invariant
                i <= self.metadata@.len(),
                forall|k: int| 0 <= k < i ==> self.metadata@[k].mint != mint,
            decreases self.metadata@.len() - i,
        {
            if self.metadata[i].mint == mint {
                return Some(i);
            }
            i = i + 1;
        }
        None
    }
}

impl CollectionState {
    /// The sole access-control gate of a member mint, checked before any
    /// external call: only the recorded authority may mint members into
    /// the collection.
    pub fn authorize_minter(&self, caller: &Pubkey) -> (r: Result<(), crate::errors::ErrorCode>)
        ensures
            r is Ok <==> self.authority == *caller,
            r is Err ==> r == Result::<(), crate::errors::ErrorCode>::Err(
                crate::errors::ErrorCode::Unauthorized,
            ),
    {
        if self.authority == *caller {
            Ok(())
        } else {
            Err(crate::errors::ErrorCode::Unauthorized)
        }
    }
}

/// The reading of the protocol invariant for one record: no input can
/// exhibit a verified-but-unminted member, nor a verified member whose
/// collection metadata is missing or governed by anyone but the identity
/// that verified the member.
pub proof fn lemma_verified_member_is_minted_and_authorized(c: Chain, i: int)
    requires
        c.inv(),
        0 <= i < c.metadata@.len(),
        verified_member(c.metadata@[i]),
    ensures
        c.metadata@[i].supply == 1,
        md_has(c.metadata@, member_collection_key(c.metadata@[i])),
        forall|j: int|
            0 <= j < c.metadata@.len() && c.metadata@[j].mint == member_collection_key(
                c.metadata@[i],
            ) ==> c.metadata@[j].update_authority == c.metadata@[i].update_authority,
{
}

} // verus!
