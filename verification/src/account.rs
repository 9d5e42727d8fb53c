//! Account identities.
//!
//! The execution environment addresses wallets, escrow vaults and token mints
//! by 256-bit account keys.  The core never looks inside a key; it only
//! compares keys for equality (owner checks, token-mint checks) and stores
//! them in its records.  A key is modelled as its 256 bits, split into two
//! 128-bit halves so that equality is plain field equality.

use vstd::prelude::*;

verus! {

/// An opaque 256-bit account identity.
#[derive(Clone, Copy, Debug, PartialEq, Eq, Structural)]
pub struct AccountId {
    /// The high 128 bits of the key.
    pub hi: u128,
    /// The low 128 bits of the key.
    pub lo: u128,
}

impl AccountId {
    /// Builds an identity from its two 128-bit halves.
    pub fn new(hi: u128, lo: u128) -> (r: AccountId)
        ensures
            r == (AccountId { hi, lo }),
    {
        AccountId { hi, lo }
    }
}

} // verus!
