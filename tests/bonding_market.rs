use hyper_prediction::address::Address;
use hyper_prediction::curve::BondingCurve;
use hyper_prediction::market::{
    bond_market, create_market, harvest_attention, initialize_global, redeem, resolve_market, trade_curve,
    GlobalState, HyperError, Market, MarketAccounts, MarketCreationArgs, MarketState, Outcome, Resolution,
    ResolutionState, TradeArgs, TradeDirection,
};

fn addr(n: u128) -> Address {
    Address { low: n, high: 0 }
}

fn global() -> GlobalState {
    initialize_global(addr(1), addr(2), addr(3), addr(4), addr(5), 100, 50, 25, 5_000, 2_000, 7, 8, 1_700_000_000)
        .unwrap()
}

fn accounts() -> MarketAccounts {
    MarketAccounts {
        global: addr(10),
        market: addr(11),
        authority: addr(12),
        market_mint: addr(13),
        quote_vault: addr(14),
        attention_vault: addr(15),
        bump: 1,
        quote_vault_bump: 2,
        attention_vault_bump: 3,
        curve_bump: 4,
    }
}

fn args() -> MarketCreationArgs {
    MarketCreationArgs {
        base_price: 1000,
        slope_bps: 100,
        curvature_bps: 0,
        max_supply: 1_000_000,
        metadata: vec![1, 2, 3],
        bond_volume_override: None,
        bond_liquidity_override: None,
    }
}

fn new_market() -> (Market, BondingCurve) {
    create_market(&global(), args(), accounts(), 1_700_000_100).unwrap()
}

fn buy(quantity: u64, max_spend: u64) -> TradeArgs {
    TradeArgs { direction: TradeDirection::Buy, quantity, max_spend, min_receive: 0 }
}

fn sell(quantity: u64, min_receive: u64) -> TradeArgs {
    TradeArgs { direction: TradeDirection::Sell, quantity, max_spend: 0, min_receive }
}

fn bonded_resolution() -> (Market, Resolution) {
    let (mut m, mut c) = new_market();
    trade_curve(&global(), &mut m, &mut c, buy(10, u64::MAX)).unwrap();
    let res = bond_market(&mut m, 10_000, addr(11), addr(20), 9, 42).unwrap();
    (m, res)
}

#[test]
fn initialize_global_keeps_parameters() {
    let g = global();
    assert_eq!(g.authority, addr(1));
    assert_eq!(g.treasury, addr(5));
    assert_eq!((g.attention_fee_bps, g.creator_fee_bps, g.treasury_fee_bps), (100, 50, 25));
    assert_eq!((g.bond_volume_target, g.bond_liquidity_target), (5_000, 2_000));
    assert_eq!((g.bump, g.attention_vault_bump, g.created_ts), (7, 8, 1_700_000_000));
}

#[test]
fn initialize_global_rejects_invalid_fees() {
    let a = addr(0);
    assert_eq!(initialize_global(a, a, a, a, a, 10_001, 0, 0, 0, 0, 0, 0, 0), Err(HyperError::InvalidFee));
    assert_eq!(initialize_global(a, a, a, a, a, 5_000, 5_000, 1, 0, 0, 0, 0, 0), Err(HyperError::InvalidFee));
    assert!(initialize_global(a, a, a, a, a, 5_000, 4_000, 1_000, 0, 0, 0, 0, 0).is_ok());
}

#[test]
fn create_market_starts_in_discovery() {
    let (m, c) = new_market();
    assert_eq!(m.state, MarketState::Discovery);
    assert_eq!((m.supply, m.volume, m.trades, m.hype_score), (0, 0, 0, 0));
    assert_eq!((m.bond_volume_target, m.bond_liquidity_target), (5_000, 2_000));
    assert_eq!(m.metadata, vec![1, 2, 3]);
    assert_eq!(m.created_ts, 1_700_000_100);
    assert_eq!(c.market, addr(11));
    assert_eq!((c.base_price, c.slope_bps, c.curvature_bps, c.supply, c.volume), (1000, 100, 0, 0, 0));
}

#[test]
fn create_market_applies_overrides() {
    let mut a = args();
    a.bond_volume_override = Some(77);
    a.bond_liquidity_override = Some(88);
    let (m, _) = create_market(&global(), a, accounts(), 0).unwrap();
    assert_eq!((m.bond_volume_target, m.bond_liquidity_target), (77, 88));
}

#[test]
fn create_market_validation_errors() {
    let g = global();
    let mut a = args();
    a.max_supply = 0;
    assert_eq!(create_market(&g, a, accounts(), 0).unwrap_err(), HyperError::InvalidSupply);
    let mut a = args();
    a.base_price = 0;
    assert_eq!(create_market(&g, a, accounts(), 0).unwrap_err(), HyperError::InvalidPrice);
    let mut a = args();
    a.slope_bps = 0;
    assert_eq!(create_market(&g, a, accounts(), 0).unwrap_err(), HyperError::InvalidSlope);
    let mut a = args();
    a.max_supply = 100_000_000_001;
    assert_eq!(create_market(&g, a, accounts(), 0).unwrap_err(), HyperError::SupplyCapExceeded);
    let mut a = args();
    a.metadata = vec![0; 193];
    assert_eq!(create_market(&g, a, accounts(), 0).unwrap_err(), HyperError::MetadataTooLong);
    let mut a = args();
    a.metadata = vec![0; 192];
    a.max_supply = 100_000_000_000;
    assert!(create_market(&g, a, accounts(), 0).is_ok());
}

#[test]
fn buy_settles_cost_and_fees() {
    let (mut m, mut c) = new_market();
    let s = trade_curve(&global(), &mut m, &mut c, buy(10, 10_175)).unwrap();
    assert_eq!(s.quote, 10_000);
    assert_eq!((s.fees.attention_fee, s.fees.creator_fee, s.fees.treasury_fee), (100, 50, 25));
    assert_eq!(s.user_amount, 10_175);
    assert_eq!((c.supply, c.volume), (10, 10_000));
    assert_eq!((m.supply, m.volume, m.trades), (10, 10_000, 1));
}

#[test]
fn sell_after_buy_returns_cost_less_fees() {
    let (mut m, mut c) = new_market();
    trade_curve(&global(), &mut m, &mut c, buy(10, u64::MAX)).unwrap();
    let s = trade_curve(&global(), &mut m, &mut c, sell(10, 9_825)).unwrap();
    assert_eq!(s.quote, 10_000);
    assert_eq!(s.user_amount, 9_825);
    assert_eq!((c.supply, c.volume), (0, 20_000));
    assert_eq!((m.supply, m.volume, m.trades), (0, 20_000, 2));
}

#[test]
fn buy_slippage_leaves_state_unchanged() {
    let (mut m, mut c) = new_market();
    let (m0, c0) = (m.clone(), c);
    assert_eq!(trade_curve(&global(), &mut m, &mut c, buy(10, 10_174)), Err(HyperError::SlippageExceeded));
    assert_eq!(m, m0);
    assert_eq!(c, c0);
}

#[test]
fn sell_slippage_rejected() {
    let (mut m, mut c) = new_market();
    trade_curve(&global(), &mut m, &mut c, buy(10, u64::MAX)).unwrap();
    assert_eq!(trade_curve(&global(), &mut m, &mut c, sell(10, 9_826)), Err(HyperError::SlippageExceeded));
    assert_eq!(c.supply, 10);
}

#[test]
fn trade_errors() {
    let g = global();
    let (mut m, mut c) = new_market();
    assert_eq!(trade_curve(&g, &mut m, &mut c, buy(0, u64::MAX)), Err(HyperError::InvalidAmount));
    assert_eq!(trade_curve(&g, &mut m, &mut c, sell(0, 0)), Err(HyperError::InvalidAmount));
    assert_eq!(trade_curve(&g, &mut m, &mut c, buy(1_000_001, u64::MAX)), Err(HyperError::SupplyCapExceeded));
    assert_eq!(trade_curve(&g, &mut m, &mut c, sell(1, 0)), Err(HyperError::InsufficientLiquidity));
    assert!(trade_curve(&g, &mut m, &mut c, buy(1_000_000, u64::MAX)).is_ok());
    assert_eq!(trade_curve(&g, &mut m, &mut c, buy(1, u64::MAX)), Err(HyperError::SupplyCapExceeded));
}

#[test]
fn trade_quote_overflow() {
    let g = global();
    let mut a = args();
    a.base_price = u64::MAX;
    let (mut m, mut c) = create_market(&g, a, accounts(), 0).unwrap();
    assert_eq!(trade_curve(&g, &mut m, &mut c, buy(2, u64::MAX)), Err(HyperError::MathOverflow));
    assert_eq!(m.supply, 0);
}

#[test]
fn trade_on_bonded_market_rejected() {
    let (mut m, mut c) = new_market();
    trade_curve(&global(), &mut m, &mut c, buy(10, u64::MAX)).unwrap();
    bond_market(&mut m, 2_000, addr(11), addr(20), 9, 42).unwrap();
    assert_eq!(trade_curve(&global(), &mut m, &mut c, buy(1, u64::MAX)), Err(HyperError::MarketBonded));
}

#[test]
fn bond_creates_pending_resolution() {
    let (m, res) = bonded_resolution();
    assert_eq!(m.state, MarketState::Bonded);
    assert_eq!(m.bonded_ts, 42);
    assert_eq!(res.market, addr(11));
    assert_eq!(res.resolver, addr(20));
    assert_eq!(res.state, ResolutionState::Pending);
    assert_eq!(res.outcome, Outcome::Undecided);
    assert_eq!((res.settlement_price, res.created_ts, res.resolved_ts, res.bump), (0, 42, 0, 9));
}

#[test]
fn bond_rejected_below_volume_target_whatever_the_vault() {
    let (mut m, mut c) = new_market();
    trade_curve(&global(), &mut m, &mut c, buy(4, u64::MAX)).unwrap();
    assert_eq!(m.volume, 4_000);
    for balance in [0u64, 2_000, u64::MAX] {
        assert_eq!(bond_market(&mut m, balance, addr(11), addr(20), 9, 42), Err(HyperError::BondThresholdNotMet));
        assert_eq!(m.state, MarketState::Discovery);
    }
}

#[test]
fn bond_rejected_below_liquidity_target() {
    let (mut m, mut c) = new_market();
    trade_curve(&global(), &mut m, &mut c, buy(10, u64::MAX)).unwrap();
    assert_eq!(bond_market(&mut m, 1_999, addr(11), addr(20), 9, 42), Err(HyperError::BondThresholdNotMet));
    assert_eq!(m.state, MarketState::Discovery);
    assert!(bond_market(&mut m, 2_000, addr(11), addr(20), 9, 42).is_ok());
    assert_eq!(bond_market(&mut m, 2_000, addr(11), addr(20), 9, 42), Err(HyperError::MarketBonded));
}

#[test]
fn resolve_twice_fails_and_keeps_first_outcome() {
    let (m, mut res) = bonded_resolution();
    resolve_market(&m, &mut res, Outcome::Yes, 3, 50).unwrap();
    assert_eq!((res.state, res.outcome, res.settlement_price, res.resolved_ts), (ResolutionState::Finalized, Outcome::Yes, 3, 50));
    assert_eq!(resolve_market(&m, &mut res, Outcome::No, 9, 60), Err(HyperError::ResolutionFinal));
    assert_eq!((res.state, res.outcome, res.settlement_price, res.resolved_ts), (ResolutionState::Finalized, Outcome::Yes, 3, 50));
}

#[test]
fn resolve_errors() {
    let (m, mut res) = bonded_resolution();
    assert_eq!(resolve_market(&m, &mut res, Outcome::Undecided, 3, 50), Err(HyperError::InvalidOutcome));
    assert_eq!(res.state, ResolutionState::Pending);
    let (unbonded, _) = new_market();
    assert_eq!(resolve_market(&unbonded, &mut res, Outcome::Yes, 3, 50), Err(HyperError::MarketNotBonded));
}

#[test]
fn redeem_yes_pays_price_times_quantity() {
    let (m, mut res) = bonded_resolution();
    resolve_market(&m, &mut res, Outcome::Yes, 3, 50).unwrap();
    assert_eq!(redeem(&res, 7), Ok(21));
    res.settlement_price = u64::MAX;
    assert_eq!(redeem(&res, 2), Err(HyperError::MathOverflow));
}

#[test]
fn redeem_no_pays_nothing() {
    let (m, mut res) = bonded_resolution();
    resolve_market(&m, &mut res, Outcome::No, 1_000_000, 50).unwrap();
    assert_eq!(redeem(&res, 7), Ok(0));
    assert_eq!(redeem(&res, u64::MAX), Ok(0));
}

#[test]
fn redeem_errors() {
    let (_, mut res) = bonded_resolution();
    assert_eq!(redeem(&res, 1), Err(HyperError::ResolutionPending));
    assert_eq!(redeem(&res, 0), Err(HyperError::InvalidAmount));
    res.state = ResolutionState::Finalized;
    assert_eq!(redeem(&res, 1), Err(HyperError::InvalidOutcome));
}

#[test]
fn harvest_rewards_and_accrues_hype() {
    let (mut m, _) = new_market();
    let h = harvest_attention(&mut m, 175).unwrap();
    assert_eq!((h.swept, h.reward), (175, 1_750));
    assert_eq!(m.hype_score, 175);
    harvest_attention(&mut m, 25).unwrap();
    assert_eq!(m.hype_score, 200);
}

#[test]
fn harvest_errors() {
    let (mut m, _) = new_market();
    assert_eq!(harvest_attention(&mut m, 0), Err(HyperError::NothingToHarvest));
    assert_eq!(harvest_attention(&mut m, u64::MAX / 10 + 1), Err(HyperError::MathOverflow));
    assert_eq!(m.hype_score, 0);
}
