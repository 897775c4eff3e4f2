//! End-to-end scenarios over the chain model.

use onchain_verified_nft_collection::addresses::derive_collection_record_address;
use onchain_verified_nft_collection::errors::ErrorCode;
use onchain_verified_nft_collection::instructions::initialize_collection;
use onchain_verified_nft_collection::instructions::mint_nft;
use onchain_verified_nft_collection::instructions::InitializeCollection;
use onchain_verified_nft_collection::instructions::MintNft;
use onchain_verified_nft_collection::keys::Pubkey;
use onchain_verified_nft_collection::state::Chain;

fn key(n: u128) -> Pubkey {
    Pubkey { hi: n, lo: n.wrapping_mul(1103515245).wrapping_add(12345) }
}

fn init_accounts(authority: Pubkey, mint: Pubkey) -> InitializeCollection {
    InitializeCollection {
        authority,
        collection_mint: mint,
        collection_metadata: key(mint.hi + 100),
        collection_master_edition: key(mint.hi + 200),
        collection_token_account: key(mint.hi + 300),
    }
}

fn mint_accounts(authority: Pubkey, collection_mint: Pubkey, member_mint: Pubkey) -> MintNft {
    MintNft {
        authority,
        collection: derive_collection_record_address(&collection_mint).unwrap(),
        mint: member_mint,
        metadata: key(member_mint.hi + 100),
        master_edition: key(member_mint.hi + 200),
        nft_token_account: key(member_mint.hi + 300),
        collection_mint,
        collection_metadata: key(collection_mint.hi + 100),
        collection_master_edition: key(collection_mint.hi + 200),
    }
}

#[test]
fn scenario_a_initialize_collection_genesis() {
    let mut chain = Chain::new();
    let a = key(1);
    let c_mint = key(2);
    let accs = init_accounts(a, c_mint);
    let r = initialize_collection(
        &mut chain,
        &accs,
        "Genesis".to_string(),
        "GEN".to_string(),
        "ipfs://abc".to_string(),
    );
    assert_eq!(r, Ok(()));
    assert_eq!(chain.collections.len(), 1);
    let rec = &chain.collections[0];
    assert_eq!(rec.address, derive_collection_record_address(&c_mint).unwrap());
    assert_eq!(rec.state.authority, a);
    assert_eq!(rec.state.mint, c_mint);
    assert_eq!(rec.state.metadata, accs.collection_metadata);
    assert_eq!(rec.state.master_edition, accs.collection_master_edition);
    assert_eq!(chain.metadata.len(), 1);
    let md = &chain.metadata[0];
    assert_eq!(md.mint, c_mint);
    assert_eq!(md.name, "Genesis");
    assert_eq!(md.symbol, "GEN");
    assert_eq!(md.uri, "ipfs://abc");
    assert_eq!(md.seller_fee_basis_points, 0);
    assert_eq!(md.update_authority, a);
    assert!(md.is_mutable);
    assert!(!md.primary_sale_happened);
    assert!(md.collection.is_none());
    assert_eq!(md.supply, 1);
    assert_eq!(chain.token_accounts.len(), 1);
    let ta = &chain.token_accounts[0];
    assert_eq!(ta.owner, a);
    assert_eq!(ta.mint, c_mint);
    assert_eq!(ta.amount, 1);
}

#[test]
fn scenario_b_mint_verified_member() {
    let mut chain = Chain::new();
    let a = key(1);
    let c_mint = key(2);
    let r = initialize_collection(
        &mut chain,
        &init_accounts(a, c_mint),
        "Genesis".to_string(),
        "GEN".to_string(),
        "ipfs://abc".to_string(),
    );
    assert_eq!(r, Ok(()));
    let m_mint = key(10);
    let accs = mint_accounts(a, c_mint, m_mint);
    let r = mint_nft(&mut chain, &accs, "Item #1".to_string(), "ipfs://def".to_string());
    assert_eq!(r, Ok(()));
    assert_eq!(chain.collections.len(), 1);
    assert_eq!(chain.metadata.len(), 2);
    let md = &chain.metadata[1];
    assert_eq!(md.mint, m_mint);
    assert_eq!(md.name, "Item #1");
    assert_eq!(md.symbol, "");
    assert_eq!(md.uri, "ipfs://def");
    assert_eq!(md.seller_fee_basis_points, 550);
    assert_eq!(md.update_authority, a);
    assert_eq!(md.supply, 1);
    let reference = md.collection.as_ref().unwrap();
    assert!(reference.verified);
    assert_eq!(reference.key, c_mint);
    assert_eq!(chain.token_accounts.len(), 2);
    let ta = &chain.token_accounts[1];
    assert_eq!(ta.owner, a);
    assert_eq!(ta.mint, m_mint);
    assert_eq!(ta.amount, 1);
}

#[test]
fn scenario_c_unauthorized_mint_changes_nothing() {
    let mut chain = Chain::new();
    let a = key(1);
    let b = key(50);
    let c_mint = key(2);
    let r = initialize_collection(
        &mut chain,
        &init_accounts(a, c_mint),
        "Genesis".to_string(),
        "GEN".to_string(),
        "ipfs://abc".to_string(),
    );
    assert_eq!(r, Ok(()));
    let accs = mint_accounts(b, c_mint, key(10));
    let r = mint_nft(&mut chain, &accs, "Item #1".to_string(), "ipfs://def".to_string());
    assert_eq!(r, Err(ErrorCode::Unauthorized));
    // an aborted invocation leaves no trace
    assert_eq!(chain.collections.len(), 1);
    assert_eq!(chain.metadata.len(), 1);
    assert_eq!(chain.token_accounts.len(), 1);
    assert!(chain.metadata[0].collection.is_none());
}

#[test]
fn initialize_twice_fails_on_second_attempt() {
    let mut chain = Chain::new();
    let a = key(1);
    let c_mint = key(2);
    let r = initialize_collection(
        &mut chain,
        &init_accounts(a, c_mint),
        "Genesis".to_string(),
        "GEN".to_string(),
        "ipfs://abc".to_string(),
    );
    assert_eq!(r, Ok(()));
    // the same mint derives the same record address, even for another caller
    let r = initialize_collection(
        &mut chain,
        &init_accounts(key(50), c_mint),
        "Other".to_string(),
        "OTH".to_string(),
        "ipfs://xyz".to_string(),
    );
    assert_eq!(r, Err(ErrorCode::AccountAlreadyInitialized));
    assert_eq!(chain.collections.len(), 1);
    assert_eq!(chain.collections[0].state.authority, a);
    assert_eq!(chain.metadata.len(), 1);
}

#[test]
fn initialize_rejects_mint_with_existing_metadata() {
    let mut chain = Chain::new();
    let a = key(1);
    let c_mint = key(2);
    initialize_collection(
        &mut chain,
        &init_accounts(a, c_mint),
        "Genesis".to_string(),
        "GEN".to_string(),
        "ipfs://abc".to_string(),
    )
    .unwrap();
    let m_mint = key(10);
    mint_nft(
        &mut chain,
        &mint_accounts(a, c_mint, m_mint),
        "Item #1".to_string(),
        "ipfs://def".to_string(),
    )
    .unwrap();
    // the member mint has a fresh record slot but already has metadata
    let r = initialize_collection(
        &mut chain,
        &init_accounts(a, m_mint),
        "Clone".to_string(),
        "CLN".to_string(),
        "ipfs://zzz".to_string(),
    );
    assert_eq!(r, Err(ErrorCode::MetadataAlreadyExists));
}

#[test]
fn mint_without_record_fails() {
    let mut chain = Chain::new();
    let accs = mint_accounts(key(1), key(2), key(10));
    let r = mint_nft(&mut chain, &accs, "Item #1".to_string(), "ipfs://def".to_string());
    assert_eq!(r, Err(ErrorCode::AccountNotInitialized));
    assert_eq!(chain.metadata.len(), 0);
}

#[test]
fn mint_same_member_mint_twice_fails() {
    let mut chain = Chain::new();
    let a = key(1);
    let c_mint = key(2);
    initialize_collection(
        &mut chain,
        &init_accounts(a, c_mint),
        "Genesis".to_string(),
        "GEN".to_string(),
        "ipfs://abc".to_string(),
    )
    .unwrap();
    let accs = mint_accounts(a, c_mint, key(10));
    mint_nft(&mut chain, &accs, "Item #1".to_string(), "ipfs://def".to_string()).unwrap();
    let r = mint_nft(&mut chain, &accs, "Item #1".to_string(), "ipfs://def".to_string());
    assert_eq!(r, Err(ErrorCode::MetadataAlreadyExists));
    assert_eq!(chain.metadata.len(), 2);
}

#[test]
fn mint_with_unknown_collection_mint_fails() {
    let mut chain = Chain::new();
    let a = key(1);
    let c_mint = key(2);
    initialize_collection(
        &mut chain,
        &init_accounts(a, c_mint),
        "Genesis".to_string(),
        "GEN".to_string(),
        "ipfs://abc".to_string(),
    )
    .unwrap();
    // a real record, but a collection mint nothing was created for
    let mut accs = mint_accounts(a, c_mint, key(10));
    accs.collection_mint = key(77);
    let r = mint_nft(&mut chain, &accs, "Item #1".to_string(), "ipfs://def".to_string());
    assert_eq!(r, Err(ErrorCode::CollectionMetadataMissing));
}

#[test]
fn mint_against_foreign_collection_metadata_fails() {
    let mut chain = Chain::new();
    let a = key(1);
    let b = key(50);
    let c1 = key(2);
    let c2 = key(3);
    initialize_collection(
        &mut chain,
        &init_accounts(a, c1),
        "Genesis".to_string(),
        "GEN".to_string(),
        "ipfs://abc".to_string(),
    )
    .unwrap();
    initialize_collection(
        &mut chain,
        &init_accounts(b, c2),
        "Foreign".to_string(),
        "FRN".to_string(),
        "ipfs://frn".to_string(),
    )
    .unwrap();
    // caller passes their own record but the foreign collection's mint:
    // the verify step refuses a signer who is not its update authority
    let mut accs = mint_accounts(a, c1, key(10));
    accs.collection_mint = c2;
    let r = mint_nft(&mut chain, &accs, "Item #1".to_string(), "ipfs://def".to_string());
    assert_eq!(r, Err(ErrorCode::CollectionAuthorityMismatch));
    assert_eq!(chain.metadata.len(), 2);
}

#[test]
fn verified_members_are_minted_and_authority_matched() {
    let mut chain = Chain::new();
    let a = key(1);
    let c_mint = key(2);
    initialize_collection(
        &mut chain,
        &init_accounts(a, c_mint),
        "Genesis".to_string(),
        "GEN".to_string(),
        "ipfs://abc".to_string(),
    )
    .unwrap();
    for n in 0..3u128 {
        mint_nft(
            &mut chain,
            &mint_accounts(a, c_mint, key(10 + n)),
            format!("Item #{}", n),
            "ipfs://def".to_string(),
        )
        .unwrap();
    }
    // every verified reference points at minted, authority-matched state
    for md in &chain.metadata {
        if let Some(reference) = &md.collection {
            assert!(reference.verified);
            assert_eq!(md.supply, 1);
            let cm = chain
                .metadata
                .iter()
                .find(|m| m.mint == reference.key)
                .expect("collection metadata exists");
            assert_eq!(cm.update_authority, md.update_authority);
        }
    }
}

#[test]
fn derived_record_address_is_deterministic_and_fresh() {
    let m = key(7);
    let a1 = derive_collection_record_address(&m).unwrap();
    let a2 = derive_collection_record_address(&m).unwrap();
    assert_eq!(a1, a2);
    // the derivation hashes its inputs: it hands back neither the mint nor
    // the address another mint derives to
    assert_ne!(a1, m);
    let other = derive_collection_record_address(&key(8)).unwrap();
    assert_ne!(a1, other);
}

#[test]
fn authorize_minter_gates_on_recorded_authority() {
    let mut chain = Chain::new();
    let a = key(1);
    let c_mint = key(2);
    initialize_collection(
        &mut chain,
        &init_accounts(a, c_mint),
        "Genesis".to_string(),
        "GEN".to_string(),
        "ipfs://abc".to_string(),
    )
    .unwrap();
    let record = chain.collections[0].state;
    assert_eq!(record.authorize_minter(&a), Ok(()));
    assert_eq!(record.authorize_minter(&key(50)), Err(ErrorCode::Unauthorized));
}

#[test]
fn new_chain_is_empty() {
    let chain = Chain::new();
    assert_eq!(chain.collections.len(), 0);
    assert_eq!(chain.metadata.len(), 0);
    assert_eq!(chain.token_accounts.len(), 0);
}
