use presale::account::AccountId;
use presale::config::{
    deposit_token, initialize, toggle_status, update_owner, update_rate, update_sale_type,
    update_token_price, withdraw, withdraw_token,
};
use presale::error::PresaleError;
use presale::state::{Presale, SaleType};

fn owner() -> AccountId {
    AccountId::new(1, 10)
}

fn stranger() -> AccountId {
    AccountId::new(2, 20)
}

fn token() -> AccountId {
    AccountId::new(4, 40)
}

fn fresh_pool(token_amount: u64, token_price: u64) -> Presale {
    initialize(
        owner(),
        AccountId::new(3, 30),
        AccountId::new(3, 31),
        token(),
        token_amount,
        token_price,
    )
}

#[test]
fn initialize_sets_every_field() {
    let p = fresh_pool(1_000, 100);
    assert_eq!(p.owner, owner());
    assert_eq!(p.token_ref, token());
    assert_eq!(p.token_amount, 1_000);
    assert_eq!(p.quote_amount, 0);
    assert_eq!(p.token_price, 100);
    assert!(!p.status);
    assert_eq!(p.sale_type, SaleType::Private);
    assert_eq!(p.rate, 0);
}

#[test]
fn toggle_status_flips_twice() {
    let mut p = fresh_pool(0, 0);
    assert_eq!(toggle_status(&mut p, owner()), Ok(()));
    assert!(p.status);
    assert_eq!(toggle_status(&mut p, owner()), Ok(()));
    assert!(!p.status);
}

#[test]
fn toggle_status_rejects_stranger() {
    let mut p = fresh_pool(0, 0);
    let before = p;
    assert_eq!(toggle_status(&mut p, stranger()), Err(PresaleError::Unauthorized));
    assert_eq!(p, before);
}

#[test]
fn sale_type_moves_to_public_once() {
    let mut p = fresh_pool(0, 0);
    assert_eq!(update_sale_type(&mut p, owner()), Ok(()));
    assert_eq!(p.sale_type, SaleType::Public);
    assert_eq!(update_sale_type(&mut p, owner()), Err(PresaleError::InvalidTransition));
    assert_eq!(p.sale_type, SaleType::Public);
}

#[test]
fn token_price_updates_only_in_private_mode() {
    let mut p = fresh_pool(0, 100);
    assert_eq!(update_token_price(&mut p, owner(), 250), Ok(()));
    assert_eq!(p.token_price, 250);
    update_sale_type(&mut p, owner()).unwrap();
    assert_eq!(update_token_price(&mut p, owner(), 300), Err(PresaleError::WrongSaleMode));
    assert_eq!(p.token_price, 250);
}

#[test]
fn rate_updates_only_in_public_mode() {
    let mut p = fresh_pool(0, 100);
    assert_eq!(update_rate(&mut p, owner(), 7), Err(PresaleError::WrongSaleMode));
    assert_eq!(p.rate, 0);
    update_sale_type(&mut p, owner()).unwrap();
    assert_eq!(update_rate(&mut p, owner(), 7), Ok(()));
    assert_eq!(p.rate, 7);
}

#[test]
fn update_owner_hands_authority_over() {
    let mut p = fresh_pool(0, 0);
    let next = stranger();
    assert_eq!(update_owner(&mut p, owner(), next), Ok(()));
    assert_eq!(p.owner, next);
    assert_eq!(toggle_status(&mut p, owner()), Err(PresaleError::Unauthorized));
    assert_eq!(toggle_status(&mut p, next), Ok(()));
}

#[test]
fn deposit_token_grows_inventory() {
    let mut p = fresh_pool(10, 0);
    assert_eq!(deposit_token(&mut p, owner(), 90), Ok(()));
    assert_eq!(p.token_amount, 100);
}

#[test]
fn deposit_token_rejects_overflowing_inventory() {
    let mut p = fresh_pool(u64::MAX - 1, 0);
    assert_eq!(deposit_token(&mut p, owner(), 2), Err(PresaleError::ArithmeticOverflow));
    assert_eq!(p.token_amount, u64::MAX - 1);
}

#[test]
fn withdraw_token_checks_owner_token_and_balance() {
    let mut p = fresh_pool(100, 0);
    assert_eq!(withdraw_token(&mut p, stranger(), token(), 1), Err(PresaleError::Unauthorized));
    assert_eq!(
        withdraw_token(&mut p, owner(), AccountId::new(8, 80), 1),
        Err(PresaleError::TokenMismatch)
    );
    assert_eq!(withdraw_token(&mut p, owner(), token(), 101), Err(PresaleError::InsufficientBalance));
    assert_eq!(p.token_amount, 100);
    assert_eq!(withdraw_token(&mut p, owner(), token(), 100), Ok(()));
    assert_eq!(p.token_amount, 0);
}

#[test]
fn withdraw_quote_more_than_raised_fails_and_changes_nothing() {
    let mut p = fresh_pool(0, 0);
    p.quote_amount = 500;
    let before = p;
    assert_eq!(withdraw(&mut p, owner(), 501), Err(PresaleError::InsufficientBalance));
    assert_eq!(p, before);
}

#[test]
fn withdraw_quote_up_to_raised_succeeds() {
    let mut p = fresh_pool(0, 0);
    p.quote_amount = 500;
    assert_eq!(withdraw(&mut p, owner(), 500), Ok(()));
    assert_eq!(p.quote_amount, 0);
    assert_eq!(withdraw(&mut p, owner(), 1), Err(PresaleError::InsufficientBalance));
}

#[test]
fn withdraw_quote_rejects_stranger() {
    let mut p = fresh_pool(0, 0);
    p.quote_amount = 500;
    let before = p;
    assert_eq!(withdraw(&mut p, stranger(), 1), Err(PresaleError::Unauthorized));
    assert_eq!(p, before);
}
