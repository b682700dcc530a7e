use hyper_prediction::address::Address;
use hyper_prediction::prediction_market::{
    buy_side, claim, create_market, resolve_market, sell_shares, ErrorCode, MarketStatus, Side, UserPositionAccount,
};
use hyper_prediction::simple::{
    buy_side_simple, create_market_simple, resolve_market_simple, BinarySide, ErrorCodeSimple, SimpleMarketStatus,
    UserPositionSimple,
};

fn addr(n: u128) -> Address {
    Address { low: n, high: 0 }
}

fn empty_simple_position() -> UserPositionSimple {
    UserPositionSimple { user: Address::zero(), market: Address::zero(), yes_shares: 0, no_shares: 0, has_claimed: false }
}

fn empty_position() -> UserPositionAccount {
    UserPositionAccount { user: addr(30), market: addr(31), yes_shares: 0, no_shares: 0, has_claimed: false }
}

#[test]
fn simple_market_seeded_pools() {
    let m = create_market_simple(addr(1), addr(2), 99, 3, 4);
    assert_eq!((m.yes_pool, m.no_pool), (500_000_000, 500_000_000));
    assert_eq!(m.status, SimpleMarketStatus::Unbonded);
    assert_eq!(m.winning_side, None);
    assert_eq!((m.creator, m.resolver, m.created_at, m.yes_vault_bump, m.no_vault_bump), (addr(1), addr(2), 99, 3, 4));
}

#[test]
fn simple_buy_yes_uses_pools_before_credit() {
    let mut m = create_market_simple(addr(1), addr(2), 0, 0, 0);
    let mut p = empty_simple_position();
    let r = buy_side_simple(&mut m, &mut p, addr(7), addr(8), BinarySide::Yes, 1_000_000).unwrap();
    assert_eq!((r.fee, r.net, r.shares), (20_000, 980_000, 978_083));
    assert_eq!((m.yes_pool, m.no_pool), (500_980_000, 500_000_000));
    assert_eq!((p.yes_shares, p.no_shares), (978_083, 0));
    assert_eq!((p.user, p.market), (addr(8), addr(7)));
}

#[test]
fn simple_buy_no_credits_no_pool() {
    let mut m = create_market_simple(addr(1), addr(2), 0, 0, 0);
    let mut p = empty_simple_position();
    p.user = addr(5);
    p.market = addr(6);
    buy_side_simple(&mut m, &mut p, addr(7), addr(8), BinarySide::No, 1_000_000).unwrap();
    assert_eq!((m.yes_pool, m.no_pool), (500_000_000, 500_980_000));
    assert_eq!((p.yes_shares, p.no_shares), (0, 978_083));
    assert_eq!((p.user, p.market), (addr(5), addr(6)));
}

#[test]
fn simple_buy_errors() {
    let mut m = create_market_simple(addr(1), addr(2), 0, 0, 0);
    let mut p = empty_simple_position();
    assert_eq!(buy_side_simple(&mut m, &mut p, addr(7), addr(8), BinarySide::Yes, 0), Err(ErrorCodeSimple::InvalidAmount));
    m.yes_pool = u64::MAX;
    assert_eq!(buy_side_simple(&mut m, &mut p, addr(7), addr(8), BinarySide::Yes, 100), Err(ErrorCodeSimple::MathOverflow));
    assert_eq!(p, empty_simple_position());
}

#[test]
fn simple_resolve_once_by_resolver() {
    let mut m = create_market_simple(addr(1), addr(2), 0, 0, 0);
    assert_eq!(resolve_market_simple(&mut m, addr(3), BinarySide::No), Err(ErrorCodeSimple::Unauthorized));
    assert_eq!(m.status, SimpleMarketStatus::Unbonded);
    resolve_market_simple(&mut m, addr(2), BinarySide::No).unwrap();
    assert_eq!((m.status, m.winning_side), (SimpleMarketStatus::Resolved, Some(BinarySide::No)));
    assert_eq!(resolve_market_simple(&mut m, addr(2), BinarySide::Yes), Err(ErrorCodeSimple::AlreadyResolved));
    assert_eq!(m.winning_side, Some(BinarySide::No));
}

#[test]
fn buy_then_sell_reduces_pool_by_net_payout() {
    let mut m = create_market(addr(1), addr(2), 0);
    let mut p = empty_position();
    let b = buy_side(&mut m, &mut p, Side::Yes, 1_000_000).unwrap();
    assert_eq!((b.fee, b.net, b.shares), (20_000, 980_000, 978_083));
    let s = sell_shares(&mut m, &mut p, Side::Yes, 978_083).unwrap();
    assert_eq!((s.payout, s.fee, s.net_payout), (978_087, 19_561, 958_526));
    assert_eq!((m.yes_pool, m.no_pool), (500_021_474, 500_000_000));
    assert_eq!(p.yes_shares, 0);
}

#[test]
fn buy_zero_rejected() {
    let mut m = create_market(addr(1), addr(2), 0);
    let mut p = empty_position();
    assert_eq!(buy_side(&mut m, &mut p, Side::No, 0), Err(ErrorCode::InvalidAmount));
    m.no_pool = u64::MAX;
    assert_eq!(buy_side(&mut m, &mut p, Side::No, 100), Err(ErrorCode::MathOverflow));
}

#[test]
fn sell_more_than_held_rejected() {
    let mut m = create_market(addr(1), addr(2), 0);
    let mut p = empty_position();
    p.no_shares = 5;
    assert_eq!(sell_shares(&mut m, &mut p, Side::No, 6), Err(ErrorCode::InsufficientShares));
    assert_eq!((m.no_pool, p.no_shares), (500_000_000, 5));
}

#[test]
fn claim_pays_share_of_losing_pool_once() {
    let mut m = create_market(addr(1), addr(2), 0);
    let mut p = empty_position();
    buy_side(&mut m, &mut p, Side::Yes, 1_000_000).unwrap();
    assert_eq!(claim(&m, &mut p), Err(ErrorCode::Unresolved));
    assert_eq!(resolve_market(&mut m, addr(9), Side::Yes), Err(ErrorCode::Unauthorized));
    resolve_market(&mut m, addr(2), Side::Yes).unwrap();
    assert_eq!(m.status, MarketStatus::Resolved);
    assert_eq!(resolve_market(&mut m, addr(2), Side::No), Err(ErrorCode::AlreadyResolved));
    assert_eq!(claim(&m, &mut p), Ok(976_169));
    assert!(p.has_claimed);
    assert_eq!(claim(&m, &mut p), Err(ErrorCode::AlreadyClaimed));
}

#[test]
fn claim_on_empty_winning_pool_fails() {
    let mut m = create_market(addr(1), addr(2), 0);
    let mut p = empty_position();
    m.yes_pool = 0;
    p.yes_shares = 10;
    resolve_market(&mut m, addr(2), Side::Yes).unwrap();
    assert_eq!(claim(&m, &mut p), Err(ErrorCode::MathOverflow));
    assert!(!p.has_claimed);
}
