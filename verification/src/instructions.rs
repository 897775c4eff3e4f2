//! The two instruction handlers.
//!
//! Each handler is one atomic invocation: it validates the supplied accounts
//! and the caller, then applies the net effect of its ordered external calls
//! to the [`Chain`]. A rejected invocation leaves the chain exactly as it
//! was — the runtime commits an invocation's effects all or nothing, so no
//! intermediate state of the call sequence is ever observable.
//!
//! The `*_outcome` spec functions say, for every chain and every set of
//! supplied accounts, whether the invocation lands and which error it is
//! rejected with otherwise; the handlers' contracts tie their results to
//! them exactly.

use vstd::prelude::*;

use crate::addresses::collection_record_address;
use crate::errors::ErrorCode;
use crate::keys::Pubkey;
use crate::state::md_has;
use crate::state::md_update_authority_ok;
use crate::state::rec_authority_ok;
use crate::state::rec_has;
use crate::state::verified_member;
use crate::state::member_collection_key;
use crate::state::Chain;
use crate::state::CollectionRecord;
use crate::state::CollectionRef;
use crate::state::CollectionState;
use crate::state::TokenAccount;
use crate::state::TokenMetadata;

verus! {

/// The accounts an `initialize_collection` invocation supplies, by
/// identity. The collaborating programs and the instructions sysvar are
/// fixed collaborators and carry no state of this model.
#[derive(Clone, Copy, Debug, PartialEq, Eq, Structural)]
pub struct InitializeCollection {
    /// The caller: signer, payer, and the collection's authority-to-be.
    pub authority: Pubkey,
    /// The already-allocated mint of the collection token.
    pub collection_mint: Pubkey,
    /// The metadata record the external create call will establish.
    pub collection_metadata: Pubkey,
    /// The master-edition record the external create call will establish.
    pub collection_master_edition: Pubkey,
    /// The caller's associated token account for the collection token.
    pub collection_token_account: Pubkey,
}

/// The accounts a `mint_nft` invocation supplies, by identity.
#[derive(Clone, Copy, Debug, PartialEq, Eq, Structural)]
pub struct MintNft {
    /// The caller: signer, payer, and claimed collection authority.
    pub authority: Pubkey,
    /// The address of the existing collection record.
    pub collection: Pubkey,
    /// The fresh mint of the member token.
    pub mint: Pubkey,
    /// The metadata record the external create call will establish.
    pub metadata: Pubkey,
    /// The master-edition record the external create call will establish.
    pub master_edition: Pubkey,
    /// The caller's associated token account for the member token.
    pub nft_token_account: Pubkey,
    /// The collection token's mint.
    pub collection_mint: Pubkey,
    /// The collection token's metadata record.
    pub collection_metadata: Pubkey,
    /// The collection token's master-edition record.
    pub collection_master_edition: Pubkey,
}

/// The collection record an `initialize_collection` invocation persists:
/// the caller as authority and the three external identities, verbatim.
pub open spec fn collection_state_record(a: InitializeCollection) -> CollectionState {
    CollectionState {
        authority: a.authority,
        mint: a.collection_mint,
        metadata: a.collection_metadata,
        master_edition: a.collection_master_edition,
    }
}

/// Whether `initialize_collection` lands on chain `c` with accounts `a`,
/// and with which error it is rejected otherwise, in the order the checks
/// are made: the record slot's address must be derivable, the slot must be
/// fresh, and the external create call must find no metadata record for
/// the collection mint.
pub open spec fn initialize_outcome(c: Chain, a: InitializeCollection) -> Result<(), ErrorCode> {
    match collection_record_address(a.collection_mint) {
        None => Err(ErrorCode::AddressDerivationFailed),
        Some(addr) => if rec_has(c.collections@, addr) {
            Err(ErrorCode::AccountAlreadyInitialized)
        } else if md_has(c.metadata@, a.collection_mint) {
            Err(ErrorCode::MetadataAlreadyExists)
        } else {
            Ok(())
        },
    }
}

/// Whether `mint_nft` lands on chain `c` with accounts `a`, and with which
/// error it is rejected otherwise, in the order the steps run: the record
/// must exist, the caller must be its recorded authority (checked before
/// any external call), the external create call must find the member mint
/// fresh, and the external verify call must find the collection metadata
/// and be signed by its update authority.
pub open spec fn mint_outcome(c: Chain, a: MintNft) -> Result<(), ErrorCode> {
    if !rec_has(c.collections@, a.collection) {
        Err(ErrorCode::AccountNotInitialized)
    } else if !rec_authority_ok(c.collections@, a.collection, a.authority) {
        Err(ErrorCode::Unauthorized)
    } else if md_has(c.metadata@, a.mint) {
        Err(ErrorCode::MetadataAlreadyExists)
    } else if !md_has(c.metadata@, a.collection_mint) {
        Err(ErrorCode::CollectionMetadataMissing)
    } else if !md_update_authority_ok(c.metadata@, a.collection_mint, a.authority) {
        Err(ErrorCode::CollectionAuthorityMismatch)
    } else {
        Ok(())
    }
}

impl TokenMetadata {
    /// The record the external create call establishes: a non-fungible
    /// metadata record with a zero print-supply master edition, mutable,
    /// not yet minted, with `update_authority` as both creation and update
    /// authority.
    pub fn create(
        mint: Pubkey,
        name: String,
        symbol: String,
        uri: String,
        seller_fee_basis_points: u16,
        update_authority: Pubkey,
        collection: Option<CollectionRef>,
    ) -> (m: TokenMetadata)
        ensures
            m == (TokenMetadata {
                mint,
                name,
                symbol,
                uri,
                seller_fee_basis_points,
                update_authority,
                is_mutable: true,
                primary_sale_happened: false,
                collection,
                supply: 0,
            }),
    {
        TokenMetadata {
            mint,
            name,
            symbol,
            uri,
            seller_fee_basis_points,
            update_authority,
            is_mutable: true,
            primary_sale_happened: false,
            collection,
            supply: 0,
        }
    }
}

/// Initializes a collection: persists the collection record, then has the
/// external metadata program create the collection token's non-fungible
/// metadata and master edition (royalty zero, caller as update authority)
/// and mint exactly one unit into the caller's token account.
pub fn initialize_collection(
    chain: &mut Chain,
    accounts: &InitializeCollection,
    name: String,
    symbol: String,
    uri: String,
) -> (r: Result<(), ErrorCode>)
    requires
        old(chain).wf(),
        old(chain).inv(),
    ensures
        final(chain).wf(),
        final(chain).inv(),
        r == initialize_outcome(*old(chain), *accounts),
        r is Err ==> *final(chain) == *old(chain),
        r is Ok ==> (collection_record_address(accounts.collection_mint) matches Some(addr)
            && final(chain).collections@ == old(chain).collections@.push(
            (CollectionRecord { address: addr, state: collection_state_record(*accounts) }),
        ) && rec_has(final(chain).collections@, addr)),
        r is Ok ==> final(chain).metadata@.len() == old(chain).metadata@.len() + 1,
        r is Ok ==> final(chain).metadata@.drop_last() == old(chain).metadata@,
        r is Ok ==> (final(chain).metadata@.last() == (TokenMetadata {
            mint: accounts.collection_mint,
            name,
            symbol,
            uri,
            seller_fee_basis_points: 0,
            update_authority: accounts.authority,
            is_mutable: true,
            primary_sale_happened: false,
            collection: None,
            supply: 1,
        })),
        r is Ok ==> final(chain).token_accounts@ == old(chain).token_accounts@.push(
            (TokenAccount {
                address: accounts.collection_token_account,
                owner: accounts.authority,
                mint: accounts.collection_mint,
                amount: 1,
            }),
        ),
{
    // Host validation: the record slot is addressed by derivation from the
    // collection mint and must not be initialized yet.
    let addr = match crate::addresses::derive_collection_record_address(&accounts.collection_mint) {
        Some(a) => a,
        None => {
            return Err(ErrorCode::AddressDerivationFailed);
        },
    };
    match chain.find_record_index(addr) {
        Some(_) => {
            return Err(ErrorCode::AccountAlreadyInitialized);
        },
        None => {},
    }
    // The external create call rejects a mint that already has metadata.
    match chain.find_metadata_index(accounts.collection_mint) {
        Some(_) => {
            return Err(ErrorCode::MetadataAlreadyExists);
        },
        None => {},
    }
    // Persist the record: the caller as authority, the three external
    // identities verbatim.
    let record = CollectionRecord {
        address: addr,
        state: CollectionState {
            authority: accounts.authority,
            mint: accounts.collection_mint,
            metadata: accounts.collection_metadata,
            master_edition: accounts.collection_master_edition,
        },
    };
    chain.collections.push(record);
    // External create call: collection metadata, royalty zero, no
    // collection reference of its own.
    let mut md = TokenMetadata::create(
        accounts.collection_mint,
        name,
        symbol,
        uri,
        0,
        accounts.authority,
        None,
    );
    // External mint call: exactly one unit into the caller's token account.
    md.supply = 1;
    chain.metadata.push(md);
    chain.token_accounts.push(TokenAccount {
        address: accounts.collection_token_account,
        owner: accounts.authority,
        mint: accounts.collection_mint,
        amount: 1,
    });
    proof {
        assert(chain.metadata@.drop_last() =~= old(chain).metadata@);
        assert(chain.collections@[old(chain).collections@.len() as int].address == addr);
        assert(rec_has(chain.collections@, addr));
        lemma_initialize_reestablishes(*old(chain), *chain, *accounts);
    }
    Ok(())
}

/// Proof that the net effect of a landed `initialize_collection` keeps the
/// chain well formed and the protocol invariant intact.
proof fn lemma_initialize_reestablishes(c0: Chain, c1: Chain, a: InitializeCollection)
    requires
        c0.wf(),
        c0.inv(),
        !rec_has(c0.collections@, collection_record_address(a.collection_mint)->Some_0),
        !md_has(c0.metadata@, a.collection_mint),
        collection_record_address(a.collection_mint) is Some,
        c1.collections@ == c0.collections@.push(
            (CollectionRecord {
                address: collection_record_address(a.collection_mint)->Some_0,
                state: collection_state_record(a),
            }),
        ),
        c1.metadata@.len() == c0.metadata@.len() + 1,
        c1.metadata@.drop_last() == c0.metadata@,
        c1.metadata@.last().mint == a.collection_mint,
        c1.metadata@.last().supply == 1,
        c1.metadata@.last().collection is None,
        c1.token_accounts@ == c0.token_accounts@.push(
            (TokenAccount {
                address: a.collection_token_account,
                owner: a.authority,
                mint: a.collection_mint,
                amount: 1,
            }),
        ),
    ensures
        c1.wf(),
        c1.inv(),
{
    let oc = c0.collections@;
    let om = c0.metadata@;
    let ot = c0.token_accounts@;
    let nm = c1.metadata@;
    assert(forall|i: int| 0 <= i < om.len() ==> nm[i] == om[i]);
    // unique record addresses
    assert forall|i: int, j: int| 0 <= i < j < c1.collections@.len() implies c1.collections@[i].address
        != c1.collections@[j].address by {
        if j == oc.len() {
            assert(oc[i].address != c1.collections@[j].address);
        }
    }
    // unique metadata mints
    assert forall|i: int, j: int| 0 <= i < j < nm.len() implies nm[i].mint != nm[j].mint by {
        if j == om.len() {
            assert(nm[i] == om[i]);
            assert(om[i].mint != a.collection_mint) by {
                if om[i].mint == a.collection_mint {
                    assert(md_has(om, a.collection_mint));
                }
            }
        }
    }
    // unique token-account holders: no old account holds the fresh mint
    assert forall|i: int| 0 <= i < ot.len() implies ot[i].mint != a.collection_mint by {
        if ot[i].mint == a.collection_mint {
            let j = choose|j: int| 0 <= j < om.len() && om[j].mint == ot[i].mint && om[j].supply
                >= 1;
            assert(md_has(om, a.collection_mint));
        }
    }
    assert forall|i: int, j: int| 0 <= i < j < c1.token_accounts@.len() implies !(
    c1.token_accounts@[i].owner == c1.token_accounts@[j].owner && c1.token_accounts@[i].mint
        == c1.token_accounts@[j].mint) by {
        if j == ot.len() {
            assert(c1.token_accounts@[i] == ot[i]);
        }
    }
    // token accounts only for minted mints
    assert forall|i: int| 0 <= i < c1.token_accounts@.len() implies exists|j: int|
        0 <= j < nm.len() && #[trigger] nm[j].mint == (#[trigger] c1.token_accounts@[i]).mint
        && nm[j].supply >= 1 by {
        if i < ot.len() {
            let j = choose|j: int| 0 <= j < om.len() && om[j].mint == ot[i].mint && om[j].supply
                >= 1;
            assert(nm[j].mint == c1.token_accounts@[i].mint && nm[j].supply >= 1);
        } else {
            assert(nm[om.len() as int].mint == c1.token_accounts@[i].mint && nm[om.len() as int].supply
                >= 1);
        }
    }
    // the protocol invariant: the new record carries no reference
    assert(!verified_member(nm[om.len() as int]));
    assert forall|i: int| 0 <= i < nm.len() && verified_member(nm[i]) implies nm[i].supply == 1
        && md_has(nm, member_collection_key(nm[i])) by {
        assert(nm[i] == om[i]);
        assert(md_has(om, member_collection_key(om[i])));
        let j = choose|j: int| 0 <= j < om.len() && om[j].mint == member_collection_key(om[i]);
        assert(nm[j].mint == member_collection_key(nm[i]));
    }
    assert forall|i: int, j: int|
        0 <= i < nm.len() && 0 <= j < nm.len() && verified_member(nm[i]) && nm[j].mint
            == member_collection_key(nm[i]) implies nm[j].update_authority
        == nm[i].update_authority by {
        assert(nm[i] == om[i]);
        if j == om.len() {
            // the fresh mint cannot be any member's collection key: that
            // key's metadata already existed
            assert(md_has(om, member_collection_key(om[i])));
            let k = choose|k: int| 0 <= k < om.len() && om[k].mint == member_collection_key(om[i]);
            assert(om[k].mint != a.collection_mint) by {
                if om[k].mint == a.collection_mint {
                    assert(md_has(om, a.collection_mint));
                }
            }
            assert(false);
        } else {
            assert(nm[j] == om[j]);
        }
    }
}

/// Mints a member token into an existing collection: the caller must be
/// the collection record's authority; the external metadata program then
/// creates the member's non-fungible metadata (royalty 550 basis points,
/// an unverified reference to the collection mint), mints exactly one unit
/// into the caller's token account, and verifies the collection reference
/// under the caller's signature as collection authority.
pub fn mint_nft(chain: &mut Chain, accounts: &MintNft, name: String, uri: String) -> (r: Result<
    (),
    ErrorCode,
>)
    requires
        old(chain).wf(),
        old(chain).inv(),
    ensures
        final(chain).wf(),
        final(chain).inv(),
        r == mint_outcome(*old(chain), *accounts),
        r is Err ==> *final(chain) == *old(chain),
        r is Ok ==> final(chain).collections@ == old(chain).collections@,
        r is Ok ==> final(chain).metadata@.len() == old(chain).metadata@.len() + 1,
        r is Ok ==> final(chain).metadata@.drop_last() == old(chain).metadata@,
        r is Ok ==> (({
            let m = final(chain).metadata@.last();
            m.mint == accounts.mint && m.name == name && m.symbol@.len() == 0 && m.uri == uri
                && m.seller_fee_basis_points == 550 && m.update_authority == accounts.authority
                && m.is_mutable && !m.primary_sale_happened && m.supply == 1 && m.collection
                == Some(CollectionRef { verified: true, key: accounts.collection_mint })
        })),
        r is Ok ==> final(chain).token_accounts@ == old(chain).token_accounts@.push(
            (TokenAccount {
                address: accounts.nft_token_account,
                owner: accounts.authority,
                mint: accounts.mint,
                amount: 1,
            }),
        ),
{
    // Host validation: the supplied collection record must exist.
    let rec_idx = match chain.find_record_index(accounts.collection) {
        Some(i) => i,
        None => {
            return Err(ErrorCode::AccountNotInitialized);
        },
    };
    // The sole access-control gate, checked before any external call: the
    // caller must be the recorded authority.
    if chain.collections[rec_idx].state.authority != accounts.authority {
        proof {
            assert(!rec_authority_ok(chain.collections@, accounts.collection, accounts.authority));
        }
        return Err(ErrorCode::Unauthorized);
    }
    proof {
        lemma_unique_record_authority(*chain, rec_idx as int, accounts.collection);
    }
    // The external create call rejects a mint that already has metadata.
    match chain.find_metadata_index(accounts.mint) {
        Some(_) => {
            return Err(ErrorCode::MetadataAlreadyExists);
        },
        None => {},
    }
    // The external verify call needs the collection metadata, and a signer
    // who is its update authority.
    let cm_idx = match chain.find_metadata_index(accounts.collection_mint) {
        Some(i) => i,
        None => {
            return Err(ErrorCode::CollectionMetadataMissing);
        },
    };
    if chain.metadata[cm_idx].update_authority != accounts.authority {
        proof {
            assert(!md_update_authority_ok(
                chain.metadata@,
                accounts.collection_mint,
                accounts.authority,
            ));
        }
        return Err(ErrorCode::CollectionAuthorityMismatch);
    }
    proof {
        lemma_unique_metadata_authority(*chain, cm_idx as int, accounts.collection_mint);
    }
    // External create call: member metadata with a fixed 5.5% royalty and
    // an unverified reference to the collection mint.
    let mut md = TokenMetadata::create(
        accounts.mint,
        name,
        String::new(),
        uri,
        550,
        accounts.authority,
        Some(CollectionRef { verified: false, key: accounts.collection_mint }),
    );
    // External mint call: exactly one unit into the caller's token account.
    md.supply = 1;
    // External verify call: the reference becomes verified, under the
    // caller's signature as the collection metadata's update authority.
    md.collection = Some(CollectionRef { verified: true, key: accounts.collection_mint });
    chain.metadata.push(md);
    chain.token_accounts.push(TokenAccount {
        address: accounts.nft_token_account,
        owner: accounts.authority,
        mint: accounts.mint,
        amount: 1,
    });
    proof {
        assert(chain.metadata@.drop_last() =~= old(chain).metadata@);
        lemma_mint_reestablishes(*old(chain), *chain, *accounts, cm_idx as int);
    }
    Ok(())
}

/// With unique record addresses, the one record found at an address speaks
/// for every record at that address.
proof fn lemma_unique_record_authority(c: Chain, idx: int, addr: Pubkey)
    requires
        c.wf(),
        0 <= idx < c.collections@.len(),
        c.collections@[idx].address == addr,
    ensures
        rec_authority_ok(c.collections@, addr, c.collections@[idx].state.authority),
{
    let s = c.collections@;
    assert forall|i: int| 0 <= i < s.len() && s[i].address == addr implies s[i].state.authority
        == s[idx].state.authority by {
        if i < idx {
            assert(s[i].address != s[idx].address);
        } else if idx < i {
            assert(s[idx].address != s[i].address);
        }
    }
}

/// With unique metadata mints, the one record found for a mint speaks for
/// every record for that mint.
proof fn lemma_unique_metadata_authority(c: Chain, idx: int, mint: Pubkey)
    requires
        c.wf(),
        0 <= idx < c.metadata@.len(),
        c.metadata@[idx].mint == mint,
    ensures
        md_update_authority_ok(c.metadata@, mint, c.metadata@[idx].update_authority),
{
    let s = c.metadata@;
    assert forall|i: int| 0 <= i < s.len() && s[i].mint == mint implies s[i].update_authority
        == s[idx].update_authority by {
        if i < idx {
            assert(s[i].mint != s[idx].mint);
        } else if idx < i {
            assert(s[idx].mint != s[i].mint);
        }
    }
}

/// Proof that the net effect of a landed `mint_nft` keeps the chain well
/// formed and the protocol invariant intact.
proof fn lemma_mint_reestablishes(c0: Chain, c1: Chain, a: MintNft, cm_idx: int)
    requires
        c0.wf(),
        c0.inv(),
        !md_has(c0.metadata@, a.mint),
        0 <= cm_idx < c0.metadata@.len(),
        c0.metadata@[cm_idx].mint == a.collection_mint,
        c0.metadata@[cm_idx].update_authority == a.authority,
        c1.collections@ == c0.collections@,
        c1.metadata@.len() == c0.metadata@.len() + 1,
        c1.metadata@.drop_last() == c0.metadata@,
        c1.metadata@.last().mint == a.mint,
        c1.metadata@.last().supply == 1,
        c1.metadata@.last().update_authority == a.authority,
        c1.metadata@.last().collection == Some(
            CollectionRef { verified: true, key: a.collection_mint },
        ),
        c1.token_accounts@ == c0.token_accounts@.push(
            (TokenAccount {
                address: a.nft_token_account,
                owner: a.authority,
                mint: a.mint,
                amount: 1,
            }),
        ),
    ensures
        c1.wf(),
        c1.inv(),
{
    let om = c0.metadata@;
    let ot = c0.token_accounts@;
    let nm = c1.metadata@;
    let new = om.len() as int;
    assert(forall|i: int| 0 <= i < om.len() ==> nm[i] == om[i]);
    // unique metadata mints: the member mint is fresh
    assert forall|i: int, j: int| 0 <= i < j < nm.len() implies nm[i].mint != nm[j].mint by {
        if j == new {
            assert(nm[i] == om[i]);
            assert(om[i].mint != a.mint) by {
                if om[i].mint == a.mint {
                    assert(md_has(om, a.mint));
                }
            }
        }
    }
    // no old token account holds the fresh mint
    assert forall|i: int| 0 <= i < ot.len() implies ot[i].mint != a.mint by {
        if ot[i].mint == a.mint {
            let j = choose|j: int| 0 <= j < om.len() && om[j].mint == ot[i].mint && om[j].supply
                >= 1;
            assert(md_has(om, a.mint));
        }
    }
    assert forall|i: int, j: int| 0 <= i < j < c1.token_accounts@.len() implies !(
    c1.token_accounts@[i].owner == c1.token_accounts@[j].owner && c1.token_accounts@[i].mint
        == c1.token_accounts@[j].mint) by {
        if j == ot.len() {
            assert(c1.token_accounts@[i] == ot[i]);
        }
    }
    // token accounts only for minted mints
    assert forall|i: int| 0 <= i < c1.token_accounts@.len() implies exists|j: int|
        0 <= j < nm.len() && #[trigger] nm[j].mint == (#[trigger] c1.token_accounts@[i]).mint
        && nm[j].supply >= 1 by {
        if i < ot.len() {
            let j = choose|j: int| 0 <= j < om.len() && om[j].mint == ot[i].mint && om[j].supply
                >= 1;
            assert(nm[j].mint == c1.token_accounts@[i].mint && nm[j].supply >= 1);
        } else {
            assert(nm[new].mint == c1.token_accounts@[i].mint && nm[new].supply >= 1);
        }
    }
    // the protocol invariant
    assert(verified_member(nm[new]));
    assert(member_collection_key(nm[new]) == a.collection_mint);
    assert forall|i: int| 0 <= i < nm.len() && verified_member(nm[i]) implies nm[i].supply == 1
        && md_has(nm, member_collection_key(nm[i])) by {
        if i < new {
            assert(nm[i] == om[i]);
            assert(md_has(om, member_collection_key(om[i])));
            let j = choose|j: int| 0 <= j < om.len() && om[j].mint == member_collection_key(om[i]);
            assert(nm[j].mint == member_collection_key(nm[i]));
        } else {
            assert(nm[cm_idx].mint == member_collection_key(nm[i]));
        }
    }
    assert forall|i: int, j: int|
        0 <= i < nm.len() && 0 <= j < nm.len() && verified_member(nm[i]) && nm[j].mint
            == member_collection_key(nm[i]) implies nm[j].update_authority
        == nm[i].update_authority by {
        if i < new && j < new {
            assert(nm[i] == om[i] && nm[j] == om[j]);
        } else if i < new && j == new {
            // the fresh member mint cannot be an old member's collection
            // key: that key's metadata already existed
            assert(nm[i] == om[i]);
            assert(md_has(om, member_collection_key(om[i])));
            let k = choose|k: int| 0 <= k < om.len() && om[k].mint == member_collection_key(om[i]);
            assert(om[k].mint != a.mint) by {
                if om[k].mint == a.mint {
                    assert(md_has(om, a.mint));
                }
            }
            assert(false);
        } else if i == new && j < new {
            // with unique mints, the collection metadata record found at
            // `cm_idx` is the record for the member's collection key
            assert(nm[j] == om[j]);
            if j < cm_idx {
                assert(om[j].mint != om[cm_idx].mint);
            } else if cm_idx < j {
                assert(om[cm_idx].mint != om[j].mint);
            }
        } else {
            // the member's own mint is fresh, so it is not the collection
            // mint, whose metadata already existed
            assert(om[cm_idx].mint != a.mint) by {
                if om[cm_idx].mint == a.mint {
                    assert(md_has(om, a.mint));
                }
            }
        }
    }
}

/// An unauthorized member mint is rejected with the named authorization
/// error: whenever the collection record exists and the caller is not its
/// recorded authority, the invocation's outcome is `Unauthorized` — and,
/// by the handler's contract, a rejected invocation leaves no state behind.
pub proof fn lemma_unauthorized_mint_rejected(c: Chain, a: MintNft)
    requires
        rec_has(c.collections@, a.collection),
        !rec_authority_ok(c.collections@, a.collection, a.authority),
    ensures
        mint_outcome(c, a) == Result::<(), ErrorCode>::Err(ErrorCode::Unauthorized),
{
}

/// Initialization is exactly once per derived record address: once any
/// record stands at an address, an `initialize_collection` whose collection
/// mint derives to that same address — in particular, the same mint again —
/// is rejected as already initialized.
pub proof fn lemma_initialize_exactly_once(c: Chain, b: InitializeCollection, addr: Pubkey)
    requires
        collection_record_address(b.collection_mint) == Some(addr),
        rec_has(c.collections@, addr),
    ensures
        initialize_outcome(c, b) == Result::<(), ErrorCode>::Err(
            ErrorCode::AccountAlreadyInitialized,
        ),
{
}

} // verus!
