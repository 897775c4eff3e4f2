//! Model of an on-chain program that mints a collection NFT and then mints
//! member NFTs whose collection membership is verified by the collection's
//! recorded authority.
//!
//! The chain runtime, the token program and the metadata program are external
//! collaborators: their observable effects on the program's state are modelled
//! by the [`state::Chain`] type, and the two instruction handlers
//! [`instructions::initialize_collection`] and [`instructions::mint_nft`]
//! carry contracts that pin down exactly which invocations succeed, which
//! fail with which error, and what state every outcome leaves behind.

pub mod addresses;
pub mod errors;
pub mod instructions;
pub mod keys;
pub mod state;

pub use errors::ErrorCode;
pub use instructions::initialize_collection;
pub use instructions::mint_nft;
pub use instructions::InitializeCollection;
pub use instructions::MintNft;
pub use keys::Pubkey;
pub use state::Chain;
pub use state::CollectionRecord;
pub use state::CollectionRef;
pub use state::CollectionState;
pub use state::TokenAccount;
pub use state::TokenMetadata;
