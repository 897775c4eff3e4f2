//! Account identities.

use vstd::prelude::*;

verus! {

/// A 32-byte account identity, held as two 128-bit halves: the first 16
/// bytes of the identity are `hi` and the last 16 are `lo`, each read in
/// big-endian order.
#[derive(Clone, Copy, Debug, PartialEq, Eq, Structural)]
pub struct Pubkey {
    pub hi: u128,
    pub lo: u128,
}

} // verus!
