//! Configuration and authorization: pool creation and the owner-gated
//! parameter and balance operations.
//!
//! Every mutating operation here first checks `caller` against the pool's
//! recorded owner and fails with `Unauthorized` otherwise, leaving the pool
//! unchanged.  Where an operation decides a custody transfer (a deposit or a
//! withdrawal), it only updates the recorded balance; the caller performs
//! the transfer of exactly the checked amount.

use vstd::prelude::*;

use crate::account::AccountId;
use crate::error::PresaleError;
use crate::state::{Presale, SaleType};

verus! {

/// Creates the pool record.
///
/// The pool starts with trading disabled, in the private sale mode, with no
/// quote currency raised and no price growth configured.  The caller moves
/// `token_amount` token units from the owner's wallet into the token escrow
/// alongside this creation.
pub fn initialize(
    owner: AccountId,
    escrow_quote_ref: AccountId,
    escrow_token_ref: AccountId,
    token_ref: AccountId,
    token_amount: u64,
    token_price: u64,
) -> (p: Presale)
    ensures
        p == (Presale {
            owner,
            escrow_quote_ref,
            escrow_token_ref,
            token_ref,
            token_amount,
            quote_amount: 0,
            token_price,
            status: false,
            sale_type: SaleType::Private,
            rate: 0,
        }),
{
    Presale {
        owner,
        escrow_quote_ref,
        escrow_token_ref,
        token_ref,
        token_amount,
        quote_amount: 0,
        token_price,
        status: false,
        sale_type: SaleType::Private,
        rate: 0,
    }
}

/// Flips the pool's trading status.
pub fn toggle_status(p: &mut Presale, caller: AccountId) -> (r: Result<(), PresaleError>)
    ensures
        caller != old(p).owner ==> r == Err::<(), PresaleError>(PresaleError::Unauthorized)
            && *final(p) == *old(p),
        caller == old(p).owner ==> r == Ok::<(), PresaleError>(()) && *final(p) == (Presale {
            status: !old(p).status,
            ..*old(p)
        }),
{
    if !(caller == p.owner) {
        return Err(PresaleError::Unauthorized);
    }
    p.status = !p.status;
    Ok(())
}

/// Moves the pool from the private to the public sale mode.
///
/// The move is one-way and once-only: a pool already public fails with
/// `InvalidTransition` and stays unchanged, so the mode never returns to
/// private.
pub fn update_sale_type(p: &mut Presale, caller: AccountId) -> (r: Result<(), PresaleError>)
    ensures
        caller != old(p).owner ==> r == Err::<(), PresaleError>(PresaleError::Unauthorized)
            && *final(p) == *old(p),
        caller == old(p).owner && old(p).sale_type is Public ==> r == Err::<(), PresaleError>(
            PresaleError::InvalidTransition,
        ) && *final(p) == *old(p),
        caller == old(p).owner && old(p).sale_type is Private ==> r == Ok::<(), PresaleError>(())
            && *final(p) == (Presale { sale_type: SaleType::Public, ..*old(p) }),
{
    if !(caller == p.owner) {
        return Err(PresaleError::Unauthorized);
    }
    match p.sale_type {
        SaleType::Public => Err(PresaleError::InvalidTransition),
        SaleType::Private => {
            p.sale_type = SaleType::Public;
            Ok(())
        },
    }
}

/// Sets the fixed token price; allowed only while the sale is private.
pub fn update_token_price(p: &mut Presale, caller: AccountId, new_price: u64) -> (r: Result<
    (),
    PresaleError,
>)
    ensures
        caller != old(p).owner ==> r == Err::<(), PresaleError>(PresaleError::Unauthorized)
            && *final(p) == *old(p),
        caller == old(p).owner && old(p).sale_type is Public ==> r == Err::<(), PresaleError>(
            PresaleError::WrongSaleMode,
        ) && *final(p) == *old(p),
        caller == old(p).owner && old(p).sale_type is Private ==> r == Ok::<(), PresaleError>(())
            && *final(p) == (Presale { token_price: new_price, ..*old(p) }),
{
    if !(caller == p.owner) {
        return Err(PresaleError::Unauthorized);
    }
    match p.sale_type {
        SaleType::Public => Err(PresaleError::WrongSaleMode),
        SaleType::Private => {
            p.token_price = new_price;
            Ok(())
        },
    }
}

/// Sets the price-growth coefficient; allowed only while the sale is public.
pub fn update_rate(p: &mut Presale, caller: AccountId, new_rate: u64) -> (r: Result<
    (),
    PresaleError,
>)
    ensures
        caller != old(p).owner ==> r == Err::<(), PresaleError>(PresaleError::Unauthorized)
            && *final(p) == *old(p),
        caller == old(p).owner && old(p).sale_type is Private ==> r == Err::<(), PresaleError>(
            PresaleError::WrongSaleMode,
        ) && *final(p) == *old(p),
        caller == old(p).owner && old(p).sale_type is Public ==> r == Ok::<(), PresaleError>(())
            && *final(p) == (Presale { rate: new_rate, ..*old(p) }),
{
    if !(caller == p.owner) {
        return Err(PresaleError::Unauthorized);
    }
    match p.sale_type {
        SaleType::Private => Err(PresaleError::WrongSaleMode),
        SaleType::Public => {
            p.rate = new_rate;
            Ok(())
        },
    }
}

/// Hands administrative authority to `new_owner`.
pub fn update_owner(p: &mut Presale, caller: AccountId, new_owner: AccountId) -> (r: Result<
    (),
    PresaleError,
>)
    ensures
        caller != old(p).owner ==> r == Err::<(), PresaleError>(PresaleError::Unauthorized)
            && *final(p) == *old(p),
        caller == old(p).owner ==> r == Ok::<(), PresaleError>(()) && *final(p) == (Presale {
            owner: new_owner,
            ..*old(p)
        }),
{
    if !(caller == p.owner) {
        return Err(PresaleError::Unauthorized);
    }
    p.owner = new_owner;
    Ok(())
}

/// Records a deposit of `amount` token units into the sale inventory.
///
/// The caller moves the tokens from the owner's wallet into the token
/// escrow.  An inventory total that does not fit its 64-bit field is the
/// defensive `ArithmeticOverflow`.
pub fn deposit_token(p: &mut Presale, caller: AccountId, amount: u64) -> (r: Result<
    (),
    PresaleError,
>)
    ensures
        caller != old(p).owner ==> r == Err::<(), PresaleError>(PresaleError::Unauthorized)
            && *final(p) == *old(p),
        caller == old(p).owner && old(p).token_amount + amount > u64::MAX ==> r == Err::<
            (),
            PresaleError,
        >(PresaleError::ArithmeticOverflow) && *final(p) == *old(p),
        caller == old(p).owner && old(p).token_amount + amount <= u64::MAX ==> r == Ok::<
            (),
            PresaleError,
        >(()) && *final(p) == (Presale {
            token_amount: (old(p).token_amount + amount) as u64,
            ..*old(p)
        }),
{
    if !(caller == p.owner) {
        return Err(PresaleError::Unauthorized);
    }
    match p.token_amount.checked_add(amount) {
        None => Err(PresaleError::ArithmeticOverflow),
        Some(total) => {
            p.token_amount = total;
            Ok(())
        },
    }
}

/// Records a withdrawal of `amount` token units from the sale inventory.
///
/// The asset must be the sale token (else `TokenMismatch`) and the amount
/// must not exceed the recorded inventory (else `InsufficientBalance`).  The
/// caller then moves the tokens from the token escrow to the owner.
pub fn withdraw_token(p: &mut Presale, caller: AccountId, token: AccountId, amount: u64) -> (r:
    Result<(), PresaleError>)
    ensures
        caller != old(p).owner ==> r == Err::<(), PresaleError>(PresaleError::Unauthorized)
            && *final(p) == *old(p),
        caller == old(p).owner && token != old(p).token_ref ==> r == Err::<(), PresaleError>(
            PresaleError::TokenMismatch,
        ) && *final(p) == *old(p),
        caller == old(p).owner && token == old(p).token_ref && amount > old(p).token_amount ==> r
            == Err::<(), PresaleError>(PresaleError::InsufficientBalance) && *final(p) == *old(p),
        caller == old(p).owner && token == old(p).token_ref && amount <= old(p).token_amount ==> r
            == Ok::<(), PresaleError>(()) && *final(p) == (Presale {
            token_amount: (old(p).token_amount - amount) as u64,
            ..*old(p)
        }),
{
    if !(caller == p.owner) {
        return Err(PresaleError::Unauthorized);
    }
    if !(token == p.token_ref) {
        return Err(PresaleError::TokenMismatch);
    }
    if amount > p.token_amount {
        return Err(PresaleError::InsufficientBalance);
    }
    p.token_amount = p.token_amount - amount;
    Ok(())
}

/// Records a withdrawal of `amount` quote currency from the raised total.
///
/// An amount above the recorded total fails with `InsufficientBalance` and
/// changes nothing, so the total never goes negative.  The caller then moves
/// the quote currency from the quote escrow to the owner, checking the
/// escrow's actual balance before the transfer.
pub fn withdraw(p: &mut Presale, caller: AccountId, amount: u64) -> (r: Result<(), PresaleError>)
    ensures
        caller != old(p).owner ==> r == Err::<(), PresaleError>(PresaleError::Unauthorized)
            && *final(p) == *old(p),
        caller == old(p).owner && amount > old(p).quote_amount ==> r == Err::<(), PresaleError>(
            PresaleError::InsufficientBalance,
        ) && *final(p) == *old(p),
        caller == old(p).owner && amount <= old(p).quote_amount ==> r == Ok::<(), PresaleError>(())
            && *final(p) == (Presale {
            quote_amount: (old(p).quote_amount - amount) as u64,
            ..*old(p)
        }),
{
    if !(caller == p.owner) {
        return Err(PresaleError::Unauthorized);
    }
    if amount > p.quote_amount {
        return Err(PresaleError::InsufficientBalance);
    }
    p.quote_amount = p.quote_amount - amount;
    Ok(())
}

} // verus!
