//! The error taxonomy.
//!
//! Every rejected precondition across the crate maps to exactly one of these
//! variants, and every operation detects its errors before it mutates any
//! record, so a caller that sees an error knows the records are unchanged.

use vstd::prelude::*;

verus! {

/// Why an operation was refused.
#[derive(Clone, Copy, Debug, PartialEq, Eq, Structural)]
pub enum PresaleError {
    /// The caller is not the pool owner.
    Unauthorized,
    /// Trading is currently disabled.
    NotLive,
    /// The operation is not valid in the current private/public sale mode.
    WrongSaleMode,
    /// The sale mode may move from private to public only, and only once.
    InvalidTransition,
    /// The asset offered or requested is not the pool's sale token.
    TokenMismatch,
    /// The trade asks for at least as many tokens as the pool still holds.
    InsufficientInventory,
    /// The withdrawal asks for more than the recorded balance.
    InsufficientBalance,
    /// The staking period is not one of the supported tiers.
    InvalidTier,
    /// The tier already holds an outstanding lock.
    AlreadyStaking,
    /// The tier holds no lock, or the lock has not matured yet.
    NotStaking,
    /// The tier's lock was already paid out.
    AlreadyClaimed,
    /// A defensive arithmetic failure: a result does not fit the 64-bit
    /// record fields, or a conversion would divide by zero.  Never reachable
    /// from balances a solvent deployment can hold.
    ArithmeticOverflow,
}

} // verus!
