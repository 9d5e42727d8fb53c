use presale::account::AccountId;
use presale::config::{initialize, toggle_status, update_rate, update_sale_type};
use presale::error::PresaleError;
use presale::exchange::{token_sale, TradeOutcome};
use presale::pricing::{public_price_after_buy, quote_for_tokens, tokens_for_quote};
use presale::state::{Presale, UserInfo};

fn owner() -> AccountId {
    AccountId::new(1, 10)
}

fn buyer() -> AccountId {
    AccountId::new(2, 20)
}

fn token() -> AccountId {
    AccountId::new(4, 40)
}

fn live_private_pool(token_amount: u64, token_price: u64) -> Presale {
    let mut p = initialize(
        owner(),
        AccountId::new(3, 30),
        AccountId::new(3, 31),
        token(),
        token_amount,
        token_price,
    );
    toggle_status(&mut p, owner()).unwrap();
    p
}

fn live_public_pool(token_amount: u64, token_price: u64, rate: u64) -> Presale {
    let mut p = live_private_pool(token_amount, token_price);
    update_sale_type(&mut p, owner()).unwrap();
    update_rate(&mut p, owner(), rate).unwrap();
    p
}

#[test]
fn pricing_half_step_exact_value() {
    // price 100, rate 10, 10 units at 0 decimals: half of the full 100-unit
    // rate impact.
    assert_eq!(public_price_after_buy(100, 10, 10, 0), Ok(150));
}

#[test]
fn pricing_half_step_rounds_down() {
    // 10 * 5 / 1 / 2 = 25; 10 * 5 / 10 / 2 = 2 (5 / 2 rounded down).
    assert_eq!(public_price_after_buy(100, 10, 5, 0), Ok(125));
    assert_eq!(public_price_after_buy(100, 10, 5, 1), Ok(102));
}

#[test]
fn pricing_overflowing_price_is_defensive_error() {
    assert_eq!(
        public_price_after_buy(u64::MAX, u64::MAX, u64::MAX, 0),
        Err(PresaleError::ArithmeticOverflow)
    );
}

#[test]
fn quote_for_tokens_scales_and_rounds_down() {
    assert_eq!(quote_for_tokens(150, 10, 0), Ok(1_500));
    assert_eq!(quote_for_tokens(99, 5, 1), Ok(49));
    assert_eq!(quote_for_tokens(0, 5, 0), Ok(0));
}

#[test]
fn tokens_for_quote_scales_and_rounds_down() {
    assert_eq!(tokens_for_quote(100, 500, 0), Ok(5));
    assert_eq!(tokens_for_quote(3, 10, 0), Ok(3));
    assert_eq!(tokens_for_quote(7, 10, 2), Ok(142));
}

#[test]
fn tokens_for_quote_at_price_zero_is_defensive_error() {
    assert_eq!(tokens_for_quote(0, 500, 0), Err(PresaleError::ArithmeticOverflow));
}

#[test]
fn tokens_for_quote_at_largest_scale() {
    // 10^19 is the largest scale factor a 64-bit field can hold.
    assert_eq!(tokens_for_quote(10_000_000_000_000_000_000, 5, 19), Ok(5));
}

#[test]
fn private_buy_at_fixed_price() {
    // Paying 500 quote at price 100 buys 5 token units, locked in the
    // three-month tier.
    let mut p = live_private_pool(1_000, 100);
    let mut u = UserInfo::new(buyer());
    let r = token_sale(&mut p, &mut u, token(), 0, 500, 3, 77);
    assert_eq!(
        r,
        Ok(TradeOutcome { tokens_out: 0, tokens_locked: 5, quote_in: 500 })
    );
    assert_eq!(p.token_amount, 995);
    assert_eq!(p.quote_amount, 500);
    assert_eq!(p.token_price, 100);
    assert!(u.stake_3m.active);
    assert_eq!(u.stake_3m.locked_amount, 5);
    assert_eq!(u.stake_3m.lock_started_at, 77);
}

#[test]
fn public_buy_pays_the_post_impact_price() {
    // Buying 10 units moves the price from 100 to 150 first; the quote owed
    // is 150 per unit.
    let mut p = live_public_pool(1_000, 100, 10);
    let mut u = UserInfo::new(buyer());
    let r = token_sale(&mut p, &mut u, token(), 0, 10, 0, 0);
    assert_eq!(
        r,
        Ok(TradeOutcome { tokens_out: 10, tokens_locked: 0, quote_in: 1_500 })
    );
    assert_eq!(p.token_price, 150);
    assert_eq!(p.token_amount, 990);
    assert_eq!(p.quote_amount, 1_500);
    assert_eq!(u, UserInfo::new(buyer()));
}

#[test]
fn trade_rejects_disabled_pool() {
    let mut p = live_private_pool(1_000, 100);
    toggle_status(&mut p, owner()).unwrap();
    let before = p;
    let mut u = UserInfo::new(buyer());
    assert_eq!(
        token_sale(&mut p, &mut u, token(), 0, 500, 3, 0),
        Err(PresaleError::NotLive)
    );
    assert_eq!(p, before);
    assert_eq!(u, UserInfo::new(buyer()));
}

#[test]
fn trade_rejects_wrong_token() {
    let mut p = live_private_pool(1_000, 100);
    let before = p;
    let mut u = UserInfo::new(buyer());
    assert_eq!(
        token_sale(&mut p, &mut u, AccountId::new(8, 80), 0, 500, 3, 0),
        Err(PresaleError::TokenMismatch)
    );
    assert_eq!(p, before);
}

#[test]
fn public_buy_of_whole_inventory_is_refused() {
    let mut p = live_public_pool(10, 100, 10);
    let before = p;
    let mut u = UserInfo::new(buyer());
    assert_eq!(
        token_sale(&mut p, &mut u, token(), 0, 10, 0, 0),
        Err(PresaleError::InsufficientInventory)
    );
    assert_eq!(p, before);
}

#[test]
fn private_buy_of_whole_inventory_is_refused() {
    // 500 quote at price 100 is 5 units; a pool of 5 must keep some.
    let mut p = live_private_pool(5, 100);
    let before = p;
    let mut u = UserInfo::new(buyer());
    assert_eq!(
        token_sale(&mut p, &mut u, token(), 0, 500, 3, 0),
        Err(PresaleError::InsufficientInventory)
    );
    assert_eq!(p, before);
}

#[test]
fn private_buy_at_price_zero_is_defensive_error() {
    let mut p = live_private_pool(1_000, 0);
    let before = p;
    let mut u = UserInfo::new(buyer());
    assert_eq!(
        token_sale(&mut p, &mut u, token(), 0, 500, 3, 0),
        Err(PresaleError::ArithmeticOverflow)
    );
    assert_eq!(p, before);
}

#[test]
fn private_buy_with_unsupported_period_is_refused() {
    let mut p = live_private_pool(1_000, 100);
    let before = p;
    let mut u = UserInfo::new(buyer());
    assert_eq!(
        token_sale(&mut p, &mut u, token(), 0, 500, 5, 0),
        Err(PresaleError::InvalidTier)
    );
    assert_eq!(p, before);
}

#[test]
fn private_buy_into_occupied_tier_is_refused() {
    let mut p = live_private_pool(1_000, 100);
    let mut u = UserInfo::new(buyer());
    token_sale(&mut p, &mut u, token(), 0, 500, 6, 0).unwrap();
    let pool_after_first = p;
    let user_after_first = u;
    assert_eq!(
        token_sale(&mut p, &mut u, token(), 0, 200, 6, 50),
        Err(PresaleError::AlreadyStaking)
    );
    assert_eq!(p, pool_after_first);
    assert_eq!(u, user_after_first);
}

#[test]
fn public_buy_with_overflowing_price_is_refused_unchanged() {
    let mut p = live_public_pool(u64::MAX, 100, u64::MAX);
    let before = p;
    let mut u = UserInfo::new(buyer());
    assert_eq!(
        token_sale(&mut p, &mut u, token(), 0, u64::MAX - 1, 0, 0),
        Err(PresaleError::ArithmeticOverflow)
    );
    assert_eq!(p, before);
}

#[test]
fn private_buy_overflowing_the_raised_total_is_refused_unchanged() {
    let mut p = live_private_pool(1_000, 1);
    p.quote_amount = u64::MAX - 100;
    let before = p;
    let mut u = UserInfo::new(buyer());
    assert_eq!(
        token_sale(&mut p, &mut u, token(), 0, 500, 3, 0),
        Err(PresaleError::ArithmeticOverflow)
    );
    assert_eq!(p, before);
    assert_eq!(u, UserInfo::new(buyer()));
}

#[test]
fn successive_public_buys_never_lower_the_price() {
    let mut p = live_public_pool(1_000_000, 100, 3);
    let mut u = UserInfo::new(buyer());
    let mut last_price = p.token_price;
    for step in 0..20u64 {
        token_sale(&mut p, &mut u, token(), 0, step + 1, 0, 0).unwrap();
        assert!(p.token_price >= last_price);
        last_price = p.token_price;
    }
}

#[test]
fn trades_conserve_tokens() {
    // Across a mix of private and public buys, inventory plus every unit
    // moved out stays at the initial total.
    let initial: u64 = 1_000;
    let mut p = live_private_pool(initial, 100);
    let mut u = UserInfo::new(buyer());
    let mut moved: u64 = 0;

    let r = token_sale(&mut p, &mut u, token(), 0, 500, 3, 0).unwrap();
    moved += r.tokens_out + r.tokens_locked;
    let r = token_sale(&mut p, &mut u, token(), 0, 700, 12, 0).unwrap();
    moved += r.tokens_out + r.tokens_locked;

    update_sale_type(&mut p, owner()).unwrap();
    update_rate(&mut p, owner(), 10).unwrap();
    for _ in 0..5 {
        let r = token_sale(&mut p, &mut u, token(), 0, 20, 0, 0).unwrap();
        moved += r.tokens_out + r.tokens_locked;
    }

    assert_eq!(p.token_amount + moved, initial);
}
