//! A token presale-and-staking ledger.
//!
//! The crate tracks a singleton [`state::Presale`] pool — sellable token
//! inventory, the quote currency raised for it, and the price curve — together
//! with one [`state::UserInfo`] staking record per participant.  Trading runs
//! in two modes: a fixed-price private sale and a dynamically priced public
//! sale.  Tokens bought in the private sale are locked into one of four
//! fixed-duration staking tiers for a guaranteed yield.
//!
//! The crate holds only the decision core: every operation is a function from
//! the current records and plain inputs (caller identity, amounts, the clock
//! reading) to the next records and the transfers owed.  Durable storage of
//! the records, custody of the actual funds, signature checks and the clock
//! itself are the caller's collaborators; they hand values in and carry the
//! decided transfers out.

pub mod account;
pub mod config;
pub mod error;
pub mod exchange;
pub mod pricing;
pub mod staking;
pub mod state;
