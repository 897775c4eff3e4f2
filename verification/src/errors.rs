//! Why an invocation is rejected.
//!
//! `Unauthorized` is the program's own named error. The other variants stand
//! for rejections by the host's account-validation layer or by one of the
//! external calls; the original surface reports those opaquely as a
//! transaction abort, and the model names the condition that caused each.

use vstd::prelude::*;

verus! {

#[derive(Clone, Copy, Debug, PartialEq, Eq, Structural)]
pub enum ErrorCode {
    /// The caller is not the authority recorded in the collection record.
    Unauthorized,
    /// No record address could be derived for the supplied collection mint
    /// (host account validation; statistically never observed).
    AddressDerivationFailed,
    /// The record slot derived from the collection mint is already
    /// initialized (host account validation of a fresh `init` slot).
    AccountAlreadyInitialized,
    /// No collection record stands at the supplied address (host account
    /// validation of an existing record).
    AccountNotInitialized,
    /// The external create call refuses a mint that already has a metadata
    /// record.
    MetadataAlreadyExists,
    /// The external verify call finds no metadata record for the supplied
    /// collection mint.
    CollectionMetadataMissing,
    /// The external verify call refuses a signer that is not the collection
    /// metadata's update authority.
    CollectionAuthorityMismatch,
}

} // verus!
