//! The pricing engine: the public-sale price curve and the conversions
//! between quote currency and token units.
//!
//! All amounts are scaled integers: a price is quote base units per whole
//! token, scaled by the token's decimal precision, and conversions divide by
//! `10^decimals` rounding down.  The executable functions compute in 128-bit
//! intermediates, so no intermediate ever overflows; only the narrowing of
//! the final value back to 64 bits can fail, and that failure (like a
//! conversion at price zero) is reported as the defensive
//! [`PresaleError::ArithmeticOverflow`].

use vstd::arithmetic::mul::lemma_mul_upper_bound;
use vstd::prelude::*;

use crate::error::PresaleError;

verus! {

/// The largest decimal precision whose scale factor `10^decimals` fits a
/// 64-bit field.
pub const MAX_DECIMALS: u8 = 19;

/// `10^e`.
pub open spec fn pow10(e: nat) -> nat
    decreases e,
{
    if e == 0 {
        1
    } else {
        10 * pow10((e - 1) as nat)
    }
}

/// `pow10` grows with its exponent.
pub proof fn lemma_pow10_increases(a: nat, b: nat)
    requires
        a <= b,
    ensures
        pow10(a) <= pow10(b),
    decreases b,
{
    if a < b {
        lemma_pow10_increases(a, (b - 1) as nat);
        assert(pow10(b) == 10 * pow10((b - 1) as nat));
    }
}

/// The scale factor `10^decimals` of a token's decimal precision.
pub fn scale_factor(decimals: u8) -> (r: u64)
    requires
        decimals <= MAX_DECIMALS,
    ensures
        r == pow10(decimals as nat),
        r >= 1,
{
    proof {
        reveal_with_fuel(pow10, 20);
        assert(pow10(19) == 10_000_000_000_000_000_000);
    }
    let mut r: u64 = 1;
    let mut i: u8 = 0;
    while i < decimals
        invariant
            i <= decimals <= MAX_DECIMALS,
            r == pow10(i as nat),
            pow10(19) == 10_000_000_000_000_000_000,
        decreases decimals - i,
    {
        proof {
            lemma_pow10_increases((i + 1) as nat, 19);
        }
        r = r * 10;
        i = i + 1;
    }
    proof {
        lemma_pow10_increases(decimals as nat, 19);
    }
    r
}

/// The price after a public-mode buy of `token_units`: the current price
/// plus half the rate-implied increase, rounding down.
pub open spec fn spec_price_after_buy(price: int, rate: int, token_units: int, decimals: nat) -> int {
    price + rate * token_units / pow10(decimals) as int / 2
}

/// The quote currency owed for `token_units` at `price`, rounding down.
pub open spec fn spec_quote_for_tokens(price: int, token_units: int, decimals: nat) -> int {
    price * token_units / pow10(decimals) as int
}

/// The token units bought by `quote_units` at `price`, rounding down.
/// Meaningful only for a positive price.
pub open spec fn spec_tokens_for_quote(price: int, quote_units: int, decimals: nat) -> int {
    quote_units * pow10(decimals) as int / price
}

/// The product of two 64-bit values fits a 128-bit intermediate.
pub(crate) proof fn lemma_u64_mul_fits_u128(a: u64, b: u64)
    ensures
        a * b <= u128::MAX,
{
    lemma_mul_upper_bound(a as int, u64::MAX as int, b as int, u64::MAX as int);
    assert(u64::MAX * u64::MAX < u128::MAX) by (nonlinear_arith);
}

/// Computes the post-buy public price; `ArithmeticOverflow` exactly when the
/// new price does not fit a 64-bit field.
pub fn public_price_after_buy(current_price: u64, rate: u64, token_units: u64, decimals: u8) -> (r: Result<
    u64,
    PresaleError,
>)
    requires
        decimals <= MAX_DECIMALS,
    ensures
        ({
            let p = spec_price_after_buy(
                current_price as int,
                rate as int,
                token_units as int,
                decimals as nat,
            );
            match r {
                Ok(v) => v == p && current_price <= v <= u64::MAX,
                Err(e) => e == PresaleError::ArithmeticOverflow && p > u64::MAX,
            }
        }),
{
    let scale = scale_factor(decimals);
    proof {
        lemma_u64_mul_fits_u128(rate, token_units);
    }
    let step: u128 = (rate as u128) * (token_units as u128) / (scale as u128) / 2;
    let total: u128 = (current_price as u128) + step;
    if total > u64::MAX as u128 {
        Err(PresaleError::ArithmeticOverflow)
    } else {
        Ok(total as u64)
    }
}

/// Computes the quote currency owed for `token_units` at `price`;
/// `ArithmeticOverflow` exactly when the amount does not fit a 64-bit field.
pub fn quote_for_tokens(price: u64, token_units: u64, decimals: u8) -> (r: Result<u64, PresaleError>)
    requires
        decimals <= MAX_DECIMALS,
    ensures
        ({
            let q = spec_quote_for_tokens(price as int, token_units as int, decimals as nat);
            match r {
                Ok(v) => v == q,
                Err(e) => e == PresaleError::ArithmeticOverflow && q > u64::MAX,
            }
        }),
{
    let scale = scale_factor(decimals);
    proof {
        lemma_u64_mul_fits_u128(price, token_units);
    }
    let q: u128 = (price as u128) * (token_units as u128) / (scale as u128);
    if q > u64::MAX as u128 {
        Err(PresaleError::ArithmeticOverflow)
    } else {
        Ok(q as u64)
    }
}

/// Computes the token units bought by `quote_units` at `price`;
/// `ArithmeticOverflow` exactly when the price is zero (the conversion would
/// divide by zero) or the unit count does not fit a 64-bit field.
pub fn tokens_for_quote(price: u64, quote_units: u64, decimals: u8) -> (r: Result<u64, PresaleError>)
    requires
        decimals <= MAX_DECIMALS,
    ensures
        ({
            let t = spec_tokens_for_quote(price as int, quote_units as int, decimals as nat);
            match r {
                Ok(v) => price > 0 && v == t,
                Err(e) => e == PresaleError::ArithmeticOverflow && (price == 0 || t > u64::MAX),
            }
        }),
{
    if price == 0 {
        return Err(PresaleError::ArithmeticOverflow);
    }
    let scale = scale_factor(decimals);
    proof {
        lemma_u64_mul_fits_u128(quote_units, scale);
    }
    let t: u128 = (quote_units as u128) * (scale as u128) / (price as u128);
    if t > u64::MAX as u128 {
        Err(PresaleError::ArithmeticOverflow)
    } else {
        Ok(t as u64)
    }
}

} // verus!
