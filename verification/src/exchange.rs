//! The exchange engine: buying tokens against the pool, in either sale mode.
//!
//! One call decides the whole trade — the checks, the new pool record, the
//! staking record where the private sale locks the bought tokens, and the
//! transfers owed in both directions.  Every error is detected before any
//! record changes, so a rejected trade has no partial effect.

use vstd::prelude::*;

use crate::account::AccountId;
use crate::error::PresaleError;
use crate::pricing::{
    public_price_after_buy, quote_for_tokens, spec_price_after_buy, spec_quote_for_tokens,
    spec_tokens_for_quote, tokens_for_quote, MAX_DECIMALS,
};
use crate::staking::{spec_stake, stake};
use crate::state::{Presale, SaleType, Tier, UserInfo};

verus! {

/// The transfers one committed trade owes: what the custody collaborator
/// must move once the records are written.
#[derive(Clone, Copy, Debug, PartialEq, Eq, Structural)]
pub struct TradeOutcome {
    /// Token units to move from the token escrow to the participant.
    pub tokens_out: u64,
    /// Token units taken from the sale inventory and locked into one of the
    /// participant's staking tiers; they stay in escrow.
    pub tokens_locked: u64,
    /// Quote base units to move from the participant to the quote escrow.
    pub quote_in: u64,
}

/// The token units one trade takes out of the recorded sale inventory,
/// whether transferred to the participant or locked into a tier.
pub open spec fn spec_tokens_moved(o: TradeOutcome) -> int {
    o.tokens_out + o.tokens_locked
}

/// What one committed trade does to the inventory: exactly the moved units
/// leave it.
pub open spec fn spec_trade_step(pre: Presale, post: Presale, o: TradeOutcome) -> bool {
    pre.token_amount == post.token_amount + spec_tokens_moved(o)
}

/// What one committed operation may do to the price: hold it or raise it.
pub open spec fn spec_price_step(pre: Presale, post: Presale) -> bool {
    pre.token_price <= post.token_price
}

/// A public-mode buy of `amount` token units, at the dynamically updated
/// price.
///
/// The buy must leave inventory behind (else `InsufficientInventory`).  The
/// price then moves up the curve first, and the quote owed is computed at
/// the post-impact price, so each buy pays the price its own impact set.  A
/// new price or quote total that does not fit a 64-bit field is the
/// defensive `ArithmeticOverflow`.
pub open spec fn spec_public_buy(p: Presale, u: UserInfo, decimals: u8, amount: u64) -> Result<
    (Presale, UserInfo, TradeOutcome),
    PresaleError,
> {
    if amount >= p.token_amount {
        Err(PresaleError::InsufficientInventory)
    } else {
        let new_price = spec_price_after_buy(
            p.token_price as int,
            p.rate as int,
            amount as int,
            decimals as nat,
        );
        if new_price > u64::MAX {
            Err(PresaleError::ArithmeticOverflow)
        } else {
            let quote_due = spec_quote_for_tokens(new_price, amount as int, decimals as nat);
            if quote_due > u64::MAX || p.quote_amount + quote_due > u64::MAX {
                Err(PresaleError::ArithmeticOverflow)
            } else {
                Ok(
                    (
                        Presale {
                            token_amount: (p.token_amount - amount) as u64,
                            token_price: new_price as u64,
                            quote_amount: (p.quote_amount + quote_due) as u64,
                            ..p
                        },
                        u,
                        TradeOutcome {
                            tokens_out: amount,
                            tokens_locked: 0,
                            quote_in: quote_due as u64,
                        },
                    ),
                )
            }
        }
    }
}

/// A private-mode buy paying `quote_units` at the fixed price, locking the
/// bought tokens into the staking tier of `staked_period` months.
///
/// The conversion must be computable and its result fit a 64-bit field
/// (else `ArithmeticOverflow`, which also covers a price of zero), the
/// bought units must leave inventory behind (else `InsufficientInventory`),
/// the raised total must fit its field (else `ArithmeticOverflow`), the
/// period must name a tier (else `InvalidTier`) and that tier must be idle
/// (else `AlreadyStaking`).
pub open spec fn spec_private_buy(
    p: Presale,
    u: UserInfo,
    decimals: u8,
    quote_units: u64,
    staked_period: u8,
    now: i64,
) -> Result<(Presale, UserInfo, TradeOutcome), PresaleError> {
    let units = spec_tokens_for_quote(p.token_price as int, quote_units as int, decimals as nat);
    if p.token_price == 0 || units > u64::MAX {
        Err(PresaleError::ArithmeticOverflow)
    } else if units >= p.token_amount {
        Err(PresaleError::InsufficientInventory)
    } else if p.quote_amount + quote_units > u64::MAX {
        Err(PresaleError::ArithmeticOverflow)
    } else {
        match Tier::spec_from_months(staked_period) {
            None => Err(PresaleError::InvalidTier),
            Some(t) => match spec_stake(u, t, units as u64, now) {
                Err(e) => Err(e),
                Ok(u2) => Ok(
                    (
                        Presale {
                            token_amount: (p.token_amount - units) as u64,
                            quote_amount: (p.quote_amount + quote_units) as u64,
                            ..p
                        },
                        u2,
                        TradeOutcome {
                            tokens_out: 0,
                            tokens_locked: units as u64,
                            quote_in: quote_units,
                        },
                    ),
                ),
            },
        }
    }
}

/// What a trade does: the pool must be live (else `NotLive`) and the asset
/// must be the sale token (else `TokenMismatch`); then `amount` is token
/// units to buy in public mode and quote currency to pay in private mode.
pub open spec fn spec_token_sale(
    p: Presale,
    u: UserInfo,
    token: AccountId,
    decimals: u8,
    amount: u64,
    staked_period: u8,
    now: i64,
) -> Result<(Presale, UserInfo, TradeOutcome), PresaleError> {
    if !p.status {
        Err(PresaleError::NotLive)
    } else if token != p.token_ref {
        Err(PresaleError::TokenMismatch)
    } else if p.sale_type is Public {
        spec_public_buy(p, u, decimals, amount)
    } else {
        spec_private_buy(p, u, decimals, amount, staked_period, now)
    }
}

/// Executes a trade against the pool.
///
/// In public mode `amount` is the token units to buy, transferred out to the
/// participant; `staked_period` is ignored.  In private mode `amount` is the
/// quote currency paid, and the bought units are locked into the tier of
/// `staked_period` months.  The result and both records afterwards are
/// exactly what [`spec_token_sale`] gives; on any error both records are
/// unchanged.  Every committed trade conserves tokens and never lowers the
/// price.
pub fn token_sale(
    p: &mut Presale,
    u: &mut UserInfo,
    token: AccountId,
    token_decimals: u8,
    amount: u64,
    staked_period: u8,
    now: i64,
) -> (r: Result<TradeOutcome, PresaleError>)
    requires
        token_decimals <= MAX_DECIMALS,
    ensures
        match spec_token_sale(
            *old(p),
            *old(u),
            token,
            token_decimals,
            amount,
            staked_period,
            now,
        ) {
            Ok((pp, uu, o)) => r == Ok::<TradeOutcome, PresaleError>(o) && *final(p) == pp
                && *final(u) == uu,
            Err(e) => r == Err::<TradeOutcome, PresaleError>(e) && *final(p) == *old(p)
                && *final(u) == *old(u),
        },
        r matches Ok(o) ==> spec_trade_step(*old(p), *final(p), o),
        spec_price_step(*old(p), *final(p)),
        old(u).wf() ==> final(u).wf(),
{
    if !p.status {
        return Err(PresaleError::NotLive);
    }
    if !(token == p.token_ref) {
        return Err(PresaleError::TokenMismatch);
    }
    match p.sale_type {
        SaleType::Public => {
            if amount >= p.token_amount {
                return Err(PresaleError::InsufficientInventory);
            }
            let new_price = match public_price_after_buy(
                p.token_price,
                p.rate,
                amount,
                token_decimals,
            ) {
                Ok(v) => v,
                Err(e) => { return Err(e) },
            };
            let quote_due = match quote_for_tokens(new_price, amount, token_decimals) {
                Ok(v) => v,
                Err(e) => { return Err(e) },
            };
            let new_quote = match p.quote_amount.checked_add(quote_due) {
                Some(v) => v,
                None => { return Err(PresaleError::ArithmeticOverflow) },
            };
            p.token_amount = p.token_amount - amount;
            p.token_price = new_price;
            p.quote_amount = new_quote;
            Ok(TradeOutcome { tokens_out: amount, tokens_locked: 0, quote_in: quote_due })
        },
        SaleType::Private => {
            let units = match tokens_for_quote(p.token_price, amount, token_decimals) {
                Ok(v) => v,
                Err(e) => { return Err(e) },
            };
            if units >= p.token_amount {
                return Err(PresaleError::InsufficientInventory);
            }
            let new_quote = match p.quote_amount.checked_add(amount) {
                Some(v) => v,
                None => { return Err(PresaleError::ArithmeticOverflow) },
            };
            let tier = match Tier::from_months(staked_period) {
                Some(t) => t,
                None => { return Err(PresaleError::InvalidTier) },
            };
            match stake(u, tier, units, now) {
                Ok(()) => {},
                Err(e) => { return Err(e) },
            };
            p.token_amount = p.token_amount - units;
            p.quote_amount = new_quote;
            Ok(TradeOutcome { tokens_out: 0, tokens_locked: units, quote_in: amount })
        },
    }
}

/// The total token units a sequence of trades moved out of the inventory.
pub open spec fn spec_total_moved(outs: Seq<TradeOutcome>) -> int
    decreases outs.len(),
{
    if outs.len() == 0 {
        0
    } else {
        spec_total_moved(outs.drop_last()) + spec_tokens_moved(outs.last())
    }
}

/// Conservation of tokens: across any sequence of committed trades, the
/// recorded inventory plus every unit the trades moved out — transferred or
/// locked — equals the initial inventory.  `pools` are the successive pool
/// records, `outs` the outcome of the trade between each pair.
pub proof fn lemma_token_conservation(pools: Seq<Presale>, outs: Seq<TradeOutcome>)
    requires
        pools.len() == outs.len() + 1,
        forall|i: int|
            0 <= i < outs.len() ==> #[trigger] spec_trade_step(pools[i], pools[i + 1], outs[i]),
    ensures
        pools.last().token_amount + spec_total_moved(outs) == pools.first().token_amount,
    decreases outs.len(),
{
    if outs.len() > 0 {
        let n = outs.len() as int;
        assert forall|i: int|
            0 <= i < outs.drop_last().len() implies #[trigger] spec_trade_step(
            pools.drop_last()[i],
            pools.drop_last()[i + 1],
            outs.drop_last()[i],
        ) by {
            assert(spec_trade_step(pools[i], pools[i + 1], outs[i]));
        }
        lemma_token_conservation(pools.drop_last(), outs.drop_last());
        assert(spec_trade_step(pools[n - 1], pools[n], outs[n - 1]));
    }
}

/// The price never falls: across any sequence of committed operations each
/// of which holds or raises the price — every trade does, and the
/// price-growth coefficient is unsigned, so every public buy's half-step is
/// non-negative — the final price is at least the initial one.
pub proof fn lemma_price_monotone(pools: Seq<Presale>)
    requires
        pools.len() >= 1,
        forall|i: int|
            0 <= i < pools.len() - 1 ==> #[trigger] spec_price_step(pools[i], pools[i + 1]),
    ensures
        pools.first().token_price <= pools.last().token_price,
    decreases pools.len(),
{
    if pools.len() > 1 {
        let n = pools.len() as int;
        assert forall|i: int|
            0 <= i < pools.drop_last().len() - 1 implies #[trigger] spec_price_step(
            pools.drop_last()[i],
            pools.drop_last()[i + 1],
        ) by {
            assert(spec_price_step(pools[i], pools[i + 1]));
        }
        lemma_price_monotone(pools.drop_last());
        let last_step: int = n - 2;
        assert(spec_price_step(pools[last_step], pools[last_step + 1]));
    }
}

} // verus!
