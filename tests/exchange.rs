use ambar::auth::AuthContext;
use ambar::error::Error;
use ambar::marketplace::{tokens_for_payment, AmbarMarketplace, MintedTokens};
use ambar::oracle::{OracleContract, PriceRecord};
use ambar::token::EnerTrade;

const ORACLE_OWNER: u64 = 1;
const FEEDER: u64 = 2;
const USER: u64 = 3;
const TOKEN_OWNER: u64 = 4;
const MARKET_OWNER: u64 = 5;
const STRANGER: u64 = 6;
const USDT_ISSUER: u64 = 7;
const MARKET: u64 = 100;
const USDT_ADDR: u64 = 200;
const TOKEN_ADDR: u64 = 300;
const ORACLE_ADDR: u64 = 400;

fn xlm() -> String {
    "XLM".to_string()
}

fn oracle() -> OracleContract {
    let mut o = OracleContract::new();
    o.init(ORACLE_OWNER).unwrap();
    o.authorize_updater(&AuthContext::signed(ORACLE_OWNER), FEEDER).unwrap();
    o
}

fn usdt_ledger() -> EnerTrade {
    let mut t = EnerTrade::new();
    t.construct(USDT_ISSUER).unwrap();
    t.set_minter_addr(&AuthContext::signed(USDT_ISSUER), USDT_ISSUER).unwrap();
    t.mint(&AuthContext::signed(USDT_ISSUER), USER, 1000).unwrap();
    t
}

fn token_ledger() -> EnerTrade {
    let mut t = EnerTrade::new();
    t.construct(TOKEN_OWNER).unwrap();
    t.set_minter_addr(&AuthContext::signed(TOKEN_OWNER), MARKET).unwrap();
    t
}

fn market(with_token: bool) -> AmbarMarketplace {
    let mut m = AmbarMarketplace::new(MARKET);
    m.construct(MARKET_OWNER).unwrap();
    let owner = AuthContext::signed(MARKET_OWNER);
    m.set_oracle_contract(&owner, ORACLE_ADDR).unwrap();
    m.set_usdt_contract(&owner, USDT_ADDR).unwrap();
    if with_token {
        m.set_contract(&owner, &xlm(), TOKEN_ADDR).unwrap();
    }
    m
}

#[test]
fn set_price_then_get_price_returns_record() {
    let mut o = oracle();
    let event = o.set_price(&AuthContext::signed(FEEDER), FEEDER, &xlm(), 2, 1_700_000_000, 60, 9).unwrap();
    let expected = PriceRecord { price: 2, observed_at: 1_700_000_000, valid_for: 60, nonce: 9 };
    assert_eq!(event.asset, "XLM");
    assert_eq!(event.record, expected);
    assert_eq!(o.get_price(&xlm()), Ok(expected));
    o.set_price(&AuthContext::signed(ORACLE_OWNER), ORACLE_OWNER, &xlm(), 3, 5, 6, 7).unwrap();
    assert_eq!(o.get_price(&xlm()), Ok(PriceRecord { price: 3, observed_at: 5, valid_for: 6, nonce: 7 }));
}

#[test]
fn get_price_of_unknown_asset_is_not_found() {
    let mut o = oracle();
    assert_eq!(o.get_price(&xlm()), Err(Error::NotFound));
    o.set_price(&AuthContext::signed(FEEDER), FEEDER, &"BTC".to_string(), 5, 1, 1, 1).unwrap();
    assert_eq!(o.get_price(&xlm()), Err(Error::NotFound));
}

#[test]
fn set_price_by_stranger_is_unauthorized() {
    let mut o = oracle();
    let r = o.set_price(&AuthContext::signed(STRANGER), STRANGER, &xlm(), 2, 1, 1, 1);
    assert!(matches!(r, Err(Error::Unauthorized)));
    assert_eq!(o.get_price(&xlm()), Err(Error::NotFound));
    // an updater named as caller without its proof
    let r = o.set_price(&AuthContext::signed(STRANGER), FEEDER, &xlm(), 2, 1, 1, 1);
    assert!(matches!(r, Err(Error::Unauthorized)));
    assert_eq!(o.get_price(&xlm()), Err(Error::NotFound));
}

#[test]
fn set_price_rejects_non_positive_price() {
    let mut o = oracle();
    let r = o.set_price(&AuthContext::signed(FEEDER), FEEDER, &xlm(), 0, 1, 1, 1);
    assert!(matches!(r, Err(Error::InvalidPrice)));
    let r = o.set_price(&AuthContext::signed(FEEDER), FEEDER, &xlm(), -4, 1, 1, 1);
    assert!(matches!(r, Err(Error::InvalidPrice)));
    assert_eq!(o.get_price(&xlm()), Err(Error::NotFound));
}

#[test]
fn revoked_updater_can_no_longer_set_prices() {
    let mut o = oracle();
    assert!(o.is_updater(FEEDER));
    assert_eq!(o.authorize_updater(&AuthContext::signed(ORACLE_OWNER), FEEDER), Ok(()));
    assert!(o.is_updater(FEEDER));
    assert_eq!(o.authorize_updater(&AuthContext::signed(FEEDER), STRANGER), Err(Error::Unauthorized));
    assert_eq!(o.revoke_updater(&AuthContext::signed(ORACLE_OWNER), FEEDER), Ok(()));
    assert_eq!(o.revoke_updater(&AuthContext::signed(ORACLE_OWNER), FEEDER), Ok(()));
    assert!(!o.is_updater(FEEDER));
    let r = o.set_price(&AuthContext::signed(FEEDER), FEEDER, &xlm(), 2, 1, 1, 1);
    assert!(matches!(r, Err(Error::Unauthorized)));
}

#[test]
fn mint_by_non_minter_changes_nothing() {
    let mut t = token_ledger();
    assert_eq!(t.mint(&AuthContext::signed(TOKEN_OWNER), USER, 10), Err(Error::Unauthorized));
    assert_eq!(t.mint(&AuthContext::anonymous(), USER, 10), Err(Error::Unauthorized));
    assert_eq!(t.balance(USER), 0);
    assert_eq!(t.total_supply(), 0);
}

#[test]
fn mints_accumulate() {
    let mut t = token_ledger();
    let minter = AuthContext::signed(MARKET);
    assert_eq!(t.mint(&minter, USER, 7), Ok(()));
    assert_eq!(t.mint(&minter, USER, 5), Ok(()));
    assert_eq!(t.mint(&minter, STRANGER, 0), Ok(()));
    assert_eq!(t.balance(USER), 12);
    assert_eq!(t.balance(STRANGER), 0);
    assert_eq!(t.total_supply(), 12);
}

#[test]
fn mint_rejects_negative_and_overflowing_amounts() {
    let mut t = token_ledger();
    let minter = AuthContext::signed(MARKET);
    assert_eq!(t.mint(&minter, USER, -1), Err(Error::InvalidAmount));
    assert_eq!(t.mint(&minter, USER, i128::MAX), Ok(()));
    assert_eq!(t.mint(&minter, STRANGER, 1), Err(Error::ArithmeticOverflow));
    assert_eq!(t.balance(USER), i128::MAX);
    assert_eq!(t.balance(STRANGER), 0);
    assert_eq!(t.total_supply(), i128::MAX);
}

#[test]
fn transfer_moves_balance_and_keeps_supply() {
    let mut t = usdt_ledger();
    assert_eq!(t.transfer(&AuthContext::signed(USER), USER, STRANGER, 300), Ok(()));
    assert_eq!(t.balance(USER), 700);
    assert_eq!(t.balance(STRANGER), 300);
    assert_eq!(t.total_supply(), 1000);
    assert_eq!(t.transfer(&AuthContext::signed(USER), USER, USER, 700), Ok(()));
    assert_eq!(t.balance(USER), 700);
}

#[test]
fn transfer_over_balance_fails_without_change() {
    let mut t = usdt_ledger();
    assert_eq!(t.transfer(&AuthContext::signed(USER), USER, STRANGER, 1001), Err(Error::InsufficientBalance));
    assert_eq!(t.transfer(&AuthContext::signed(STRANGER), USER, STRANGER, 1), Err(Error::Unauthorized));
    assert_eq!(t.transfer(&AuthContext::signed(USER), USER, STRANGER, -1), Err(Error::InvalidAmount));
    assert_eq!(t.balance(USER), 1000);
    assert_eq!(t.balance(STRANGER), 0);
    assert_eq!(t.total_supply(), 1000);
}

#[test]
fn burn_decreases_balance_and_supply() {
    let mut t = usdt_ledger();
    assert_eq!(t.burn(&AuthContext::signed(USER), USER, 400), Ok(()));
    assert_eq!(t.balance(USER), 600);
    assert_eq!(t.total_supply(), 600);
    assert_eq!(t.burn(&AuthContext::signed(USER), USER, 601), Err(Error::InsufficientBalance));
    assert_eq!(t.burn(&AuthContext::signed(STRANGER), USER, 1), Err(Error::Unauthorized));
    assert_eq!(t.balance(USER), 600);
    assert_eq!(t.total_supply(), 600);
}

#[test]
fn token_metadata_is_set_at_construction() {
    let t = token_ledger();
    assert_eq!(t.name(), "EnerTrade");
    assert_eq!(t.symbol(), "Ener");
    assert_eq!(t.decimals(), 18);
    assert_eq!(t.owner(), Some(TOKEN_OWNER));
}

#[test]
fn construction_happens_once() {
    let mut t = token_ledger();
    assert_eq!(t.construct(STRANGER), Err(Error::AlreadyInitialized));
    assert_eq!(t.owner(), Some(TOKEN_OWNER));
    let mut o = oracle();
    assert_eq!(o.init(STRANGER), Err(Error::AlreadyInitialized));
    assert_eq!(o.owner(), Some(ORACLE_OWNER));
    let mut m = market(true);
    assert_eq!(m.construct(STRANGER), Err(Error::AlreadyInitialized));
    assert_eq!(m.owner(), Some(MARKET_OWNER));
}

#[test]
fn ownership_transfer_moves_owner_gated_rights() {
    let mut t = token_ledger();
    assert_eq!(t.transfer_ownership(&AuthContext::signed(STRANGER), STRANGER), Err(Error::Unauthorized));
    assert_eq!(t.transfer_ownership(&AuthContext::signed(TOKEN_OWNER), STRANGER), Ok(()));
    assert_eq!(t.owner(), Some(STRANGER));
    assert_eq!(t.set_minter_addr(&AuthContext::signed(TOKEN_OWNER), TOKEN_OWNER), Err(Error::Unauthorized));
    assert_eq!(t.set_minter_addr(&AuthContext::signed(STRANGER), USER), Ok(()));
    assert_eq!(t.mint(&AuthContext::signed(USER), USER, 3), Ok(()));

    let mut o = oracle();
    assert_eq!(o.transfer_ownership(&AuthContext::signed(ORACLE_OWNER), STRANGER), Ok(()));
    assert!(o.is_updater(FEEDER));
    assert_eq!(o.authorize_updater(&AuthContext::signed(ORACLE_OWNER), USER), Err(Error::Unauthorized));
    assert_eq!(o.authorize_updater(&AuthContext::signed(STRANGER), USER), Ok(()));

    let mut m = market(true);
    assert_eq!(m.transfer_ownership(&AuthContext::signed(MARKET_OWNER), STRANGER), Ok(()));
    assert_eq!(m.set_oracle_contract(&AuthContext::signed(MARKET_OWNER), 1), Err(Error::Unauthorized));
    assert_eq!(m.set_oracle_contract(&AuthContext::signed(STRANGER), 1), Ok(()));
    assert_eq!(m.oracle_contract(), Some(1));
}

#[test]
fn marketplace_configuration_is_owner_gated() {
    let mut m = market(false);
    let stranger = AuthContext::signed(STRANGER);
    assert_eq!(m.set_contract(&stranger, &xlm(), 9), Err(Error::Unauthorized));
    assert_eq!(m.set_usdt_contract(&stranger, 9), Err(Error::Unauthorized));
    assert_eq!(m.contract(&xlm()), None);
    let owner = AuthContext::signed(MARKET_OWNER);
    assert_eq!(m.set_contract(&owner, &xlm(), 9), Ok(()));
    assert_eq!(m.set_contract(&owner, &xlm(), TOKEN_ADDR), Ok(()));
    assert_eq!(m.contract(&xlm()), Some(TOKEN_ADDR));
    assert_eq!(m.usdt_contract(), Some(USDT_ADDR));
    assert_eq!(m.address(), MARKET);
}

#[test]
fn tokens_for_payment_rounds_down() {
    assert_eq!(tokens_for_payment(10, 2), Ok(5));
    assert_eq!(tokens_for_payment(11, 2), Ok(5));
    assert_eq!(tokens_for_payment(1, 3), Ok(0));
    assert_eq!(tokens_for_payment(-7, 2), Ok(-3));
    assert_eq!(tokens_for_payment(10, 0), Err(Error::InvalidPrice));
    assert_eq!(tokens_for_payment(10, -2), Err(Error::InvalidPrice));
}

#[test]
fn mint_with_usdt_mints_at_oracle_price() {
    let mut o = oracle();
    o.set_price(&AuthContext::signed(FEEDER), FEEDER, &xlm(), 2, 1, 60, 1).unwrap();
    let mut usdt = usdt_ledger();
    let mut token = token_ledger();
    let m = market(true);
    let r = m.mint_with_usdt(&AuthContext::signed(USER), USER, &xlm(), 10, &mut usdt, &o, &mut token);
    assert_eq!(r, Ok(MintedTokens { user: USER, amount_paid: 10, tokens_minted: 5 }));
    assert_eq!(token.balance(USER), 5);
    assert_eq!(token.total_supply(), 5);
    assert_eq!(usdt.balance(USER), 990);
    assert_eq!(usdt.balance(MARKET), 10);
}

#[test]
fn mint_with_usdt_without_price_is_unavailable() {
    let o = oracle();
    let mut usdt = usdt_ledger();
    let mut token = token_ledger();
    let m = market(true);
    let r = m.mint_with_usdt(&AuthContext::signed(USER), USER, &xlm(), 10, &mut usdt, &o, &mut token);
    assert_eq!(r, Err(Error::PriceUnavailable));
    assert_eq!(usdt.balance(USER), 1000);
    assert_eq!(usdt.balance(MARKET), 0);
    assert_eq!(token.balance(USER), 0);
}

#[test]
fn mint_with_usdt_without_token_is_not_configured() {
    let mut o = oracle();
    o.set_price(&AuthContext::signed(FEEDER), FEEDER, &xlm(), 2, 1, 60, 1).unwrap();
    let mut usdt = usdt_ledger();
    let mut token = token_ledger();
    let m = market(false);
    let r = m.mint_with_usdt(&AuthContext::signed(USER), USER, &xlm(), 10, &mut usdt, &o, &mut token);
    assert_eq!(r, Err(Error::TokenNotConfigured));
    assert_eq!(usdt.balance(USER), 1000);
    assert_eq!(token.total_supply(), 0);
}

#[test]
fn mint_with_usdt_failures_leave_balances() {
    let mut o = oracle();
    o.set_price(&AuthContext::signed(FEEDER), FEEDER, &xlm(), 2, 1, 60, 1).unwrap();
    let mut usdt = usdt_ledger();
    let mut token = token_ledger();
    let m = market(true);
    let r = m.mint_with_usdt(&AuthContext::signed(STRANGER), USER, &xlm(), 10, &mut usdt, &o, &mut token);
    assert_eq!(r, Err(Error::Unauthorized));
    let r = m.mint_with_usdt(&AuthContext::signed(USER), USER, &xlm(), 1001, &mut usdt, &o, &mut token);
    assert_eq!(r, Err(Error::PaymentFailed));
    // the exchange is not the minter of this ledger
    let mut other = usdt_ledger();
    let r = m.mint_with_usdt(&AuthContext::signed(USER), USER, &xlm(), 10, &mut usdt, &o, &mut other);
    assert_eq!(r, Err(Error::Unauthorized));
    assert_eq!(usdt.balance(USER), 1000);
    assert_eq!(usdt.balance(MARKET), 0);
    assert_eq!(other.balance(USER), 1000);
    assert_eq!(token.total_supply(), 0);
}

#[test]
fn a_transaction_may_carry_several_proofs() {
    let mut auth = AuthContext::anonymous();
    auth.add_signer(STRANGER);
    auth.add_signer(USER);
    assert!(auth.has_proof(USER));
    assert!(auth.has_proof(STRANGER));
    assert!(!auth.has_proof(FEEDER));
    let mut t = usdt_ledger();
    assert_eq!(t.transfer(&auth, USER, STRANGER, 1), Ok(()));
    assert_eq!(t.balance(STRANGER), 1);
}
