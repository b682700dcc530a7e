//! The bonding-curve market: protocol configuration, market creation,
//! trading against the curve, bonding, resolution, redemption and the
//! harvest of attention fees.
//!
//! Every operation validates and computes before it changes anything: on an
//! error the entities it was handed are left as they were. Value movements
//! are not performed here; each operation returns what the ledger must move.
use crate::address::Address;
use crate::curve::{purchase_quote, sale_quote, BondingCurve};
use crate::fees::{lemma_valid_config_split_within_amount, FeeSplit};
use vstd::prelude::*;

verus! {

/// Largest `max_supply` a market may be created with.
pub const MAX_SUPPLY_LIMIT: u64 = 100_000_000_000;

/// Attention tokens minted per unit of harvested attention fee.
pub const ATTN_REWARD_RATIO: u64 = 10;

/// Longest market metadata, in bytes.
pub const MAX_METADATA_LEN: usize = 192;

/// Fee rates are each at most a whole and together at most a whole.
pub open spec fn fee_config_valid(attention_fee_bps: u16, creator_fee_bps: u16, treasury_fee_bps: u16) -> bool {
    &&& attention_fee_bps <= 10_000
    &&& creator_fee_bps <= 10_000
    &&& treasury_fee_bps <= 10_000
    &&& attention_fee_bps + creator_fee_bps + treasury_fee_bps <= 10_000
}

#[derive(Clone, Copy, Debug, PartialEq, Eq, Structural)]
pub enum MarketState {
    Discovery,
    Bonded,
}

#[derive(Clone, Copy, Debug, PartialEq, Eq, Structural)]
pub enum ResolutionState {
    Pending,
    Finalized,
}

#[derive(Clone, Copy, Debug, PartialEq, Eq, Structural)]
pub enum Outcome {
    Undecided,
    Yes,
    No,
}

#[derive(Clone, Copy, Debug, PartialEq, Eq, Structural)]
pub enum TradeDirection {
    Buy,
    Sell,
}

#[derive(Clone, Copy, Debug, PartialEq, Eq, Structural)]
pub enum HyperError {
    InvalidFee,
    BumpMissing,
    MarketBonded,
    MarketNotBonded,
    BondThresholdNotMet,
    MetadataTooLong,
    MathOverflow,
    InvalidSupply,
    InvalidPrice,
    InvalidSlope,
    SupplyCapExceeded,
    SlippageExceeded,
    InvalidAmount,
    InsufficientLiquidity,
    ResolutionFinal,
    ResolutionPending,
    InvalidOutcome,
    NothingToHarvest,
}

/// Protocol-wide configuration, created once.
#[derive(Clone, Copy, Debug, PartialEq, Eq, Structural)]
pub struct GlobalState {
    pub authority: Address,
    pub attention_mint: Address,
    pub attention_vault: Address,
    pub quote_mint: Address,
    pub treasury: Address,
    pub attention_fee_bps: u16,
    pub creator_fee_bps: u16,
    pub treasury_fee_bps: u16,
    pub bond_volume_target: u64,
    pub bond_liquidity_target: u64,
    pub created_ts: i64,
    pub bump: u8,
    pub attention_vault_bump: u8,
}

impl GlobalState {
    /// The fee rates are valid.
    pub open spec fn wf(&self) -> bool {
        fee_config_valid(self.attention_fee_bps, self.creator_fee_bps, self.treasury_fee_bps)
    }

    /// Whether the fee rates are valid, for callers that hold a configuration
    /// read from storage.
    pub fn has_valid_fees(&self) -> (r: bool)
        ensures
            r == self.wf(),
    {
        self.attention_fee_bps <= 10_000 && self.creator_fee_bps <= 10_000 && self.treasury_fee_bps <= 10_000
            && self.attention_fee_bps + self.creator_fee_bps + self.treasury_fee_bps <= 10_000
    }
}

/// One listed outcome asset.
#[derive(Clone, Debug, PartialEq, Eq)]
pub struct Market {
    pub global: Address,
    pub authority: Address,
    pub market_mint: Address,
    pub quote_vault: Address,
    pub attention_vault: Address,
    pub state: MarketState,
    pub supply: u64,
    pub volume: u128,
    pub trades: u64,
    pub hype_score: u128,
    pub base_price: u64,
    pub slope_bps: u64,
    pub curvature_bps: u64,
    pub max_supply: u64,
    pub bond_volume_target: u64,
    pub bond_liquidity_target: u64,
    pub metadata: Vec<u8>,
    pub created_ts: i64,
    pub bonded_ts: i64,
    pub bump: u8,
    pub quote_vault_bump: u8,
    pub attention_vault_bump: u8,
}

impl Market {
    /// The market's own invariant, and agreement with its curve: the curve
    /// holds the same supply, volume and parameters, and the supply stays
    /// within the cap.
    pub open spec fn tracks(&self, curve: BondingCurve) -> bool {
        &&& self.supply <= self.max_supply
        &&& self.metadata@.len() <= MAX_METADATA_LEN
        &&& curve.supply == self.supply
        &&& curve.volume == self.volume
        &&& curve.base_price == self.base_price
        &&& curve.slope_bps == self.slope_bps
        &&& curve.curvature_bps == self.curvature_bps
    }

    /// Whether this market and `curve` agree as `tracks` requires, for
    /// callers that hold the two read from storage.
    pub fn is_tracked_by(&self, curve: &BondingCurve) -> (r: bool)
        ensures
            r == self.tracks(*curve),
    {
        self.supply <= self.max_supply && self.metadata.len() <= MAX_METADATA_LEN && curve.supply == self.supply
            && curve.volume == self.volume && curve.base_price == self.base_price && curve.slope_bps
            == self.slope_bps && curve.curvature_bps == self.curvature_bps
    }
}

/// The outcome record of a bonded market.
#[derive(Clone, Copy, Debug, PartialEq, Eq, Structural)]
pub struct Resolution {
    pub market: Address,
    pub resolver: Address,
    pub state: ResolutionState,
    pub outcome: Outcome,
    pub settlement_price: u64,
    pub created_ts: i64,
    pub resolved_ts: i64,
    pub bump: u8,
}

impl Resolution {
    /// A finalized resolution has a decided outcome.
    pub open spec fn wf(&self) -> bool {
        self.state == ResolutionState::Finalized ==> self.outcome != Outcome::Undecided
    }
}

#[derive(Clone, Debug, PartialEq, Eq)]
pub struct MarketCreationArgs {
    pub base_price: u64,
    pub slope_bps: u64,
    pub curvature_bps: u64,
    pub max_supply: u64,
    pub metadata: Vec<u8>,
    pub bond_volume_override: Option<u64>,
    pub bond_liquidity_override: Option<u64>,
}

#[derive(Clone, Copy, Debug, PartialEq, Eq, Structural)]
pub struct TradeArgs {
    pub direction: TradeDirection,
    pub quantity: u64,
    pub max_spend: u64,
    pub min_receive: u64,
}

/// The identities and derivation bumps that a new market is created with.
#[derive(Clone, Copy, Debug, PartialEq, Eq, Structural)]
pub struct MarketAccounts {
    pub global: Address,
    pub market: Address,
    pub authority: Address,
    pub market_mint: Address,
    pub quote_vault: Address,
    pub attention_vault: Address,
    pub bump: u8,
    pub quote_vault_bump: u8,
    pub attention_vault_bump: u8,
    pub curve_bump: u8,
}

/// The configuration that `initialize_global` creates from valid rates.
pub open spec fn initial_global(
    authority: Address,
    attention_mint: Address,
    attention_vault: Address,
    quote_mint: Address,
    treasury: Address,
    attention_fee_bps: u16,
    creator_fee_bps: u16,
    treasury_fee_bps: u16,
    bond_volume_target: u64,
    bond_liquidity_target: u64,
    bump: u8,
    attention_vault_bump: u8,
    created_ts: i64,
) -> GlobalState {
    GlobalState {
        authority,
        attention_mint,
        attention_vault,
        quote_mint,
        treasury,
        attention_fee_bps,
        creator_fee_bps,
        treasury_fee_bps,
        bond_volume_target,
        bond_liquidity_target,
        created_ts,
        bump,
        attention_vault_bump,
    }
}

/// Creates the protocol configuration; fails with `InvalidFee` unless each
/// fee rate is at most 10000 basis points and their sum is too.
pub fn initialize_global(
    authority: Address,
    attention_mint: Address,
    attention_vault: Address,
    quote_mint: Address,
    treasury: Address,
    attention_fee_bps: u16,
    creator_fee_bps: u16,
    treasury_fee_bps: u16,
    bond_volume_target: u64,
    bond_liquidity_target: u64,
    bump: u8,
    attention_vault_bump: u8,
    created_ts: i64,
) -> (r: Result<GlobalState, HyperError>)
    ensures
        fee_config_valid(attention_fee_bps, creator_fee_bps, treasury_fee_bps) ==> r == Ok::<
            GlobalState,
            HyperError,
        >(
            initial_global(
                authority,
                attention_mint,
                attention_vault,
                quote_mint,
                treasury,
                attention_fee_bps,
                creator_fee_bps,
                treasury_fee_bps,
                bond_volume_target,
                bond_liquidity_target,
                bump,
                attention_vault_bump,
                created_ts,
            ),
        ),
        !fee_config_valid(attention_fee_bps, creator_fee_bps, treasury_fee_bps) ==> r == Err::<
            GlobalState,
            HyperError,
        >(HyperError::InvalidFee),
        r matches Ok(g) ==> g.wf(),
{
    if attention_fee_bps > 10_000 || creator_fee_bps > 10_000 || treasury_fee_bps > 10_000 {
        return Err(HyperError::InvalidFee);
    }
    if attention_fee_bps + creator_fee_bps + treasury_fee_bps > 10_000 {
        return Err(HyperError::InvalidFee);
    }
    Ok(GlobalState {
        authority,
        attention_mint,
        attention_vault,
        quote_mint,
        treasury,
        attention_fee_bps,
        creator_fee_bps,
        treasury_fee_bps,
        bond_volume_target,
        bond_liquidity_target,
        created_ts,
        bump,
        attention_vault_bump,
    })
}


/// The first of the creation checks that `args` fails, if any.
pub open spec fn creation_error(args: MarketCreationArgs) -> Option<HyperError> {
    if args.max_supply == 0 {
        Some(HyperError::InvalidSupply)
    } else if args.base_price == 0 {
        Some(HyperError::InvalidPrice)
    } else if args.slope_bps == 0 {
        Some(HyperError::InvalidSlope)
    } else if args.max_supply > MAX_SUPPLY_LIMIT {
        Some(HyperError::SupplyCapExceeded)
    } else if args.metadata@.len() > MAX_METADATA_LEN {
        Some(HyperError::MetadataTooLong)
    } else {
        None
    }
}

/// `value` when present, else `default`.
pub open spec fn or_default(value: Option<u64>, default: u64) -> u64 {
    match value {
        Some(v) => v,
        None => default,
    }
}

/// The market that `create_market` makes from valid arguments.
pub open spec fn created_market(
    global: GlobalState,
    args: MarketCreationArgs,
    accounts: MarketAccounts,
    created_ts: i64,
) -> Market {
    Market {
        global: accounts.global,
        authority: accounts.authority,
        market_mint: accounts.market_mint,
        quote_vault: accounts.quote_vault,
        attention_vault: accounts.attention_vault,
        state: MarketState::Discovery,
        supply: 0,
        volume: 0,
        trades: 0,
        hype_score: 0,
        base_price: args.base_price,
        slope_bps: args.slope_bps,
        curvature_bps: args.curvature_bps,
        max_supply: args.max_supply,
        bond_volume_target: or_default(args.bond_volume_override, global.bond_volume_target),
        bond_liquidity_target: or_default(args.bond_liquidity_override, global.bond_liquidity_target),
        metadata: args.metadata,
        created_ts,
        bonded_ts: 0,
        bump: accounts.bump,
        quote_vault_bump: accounts.quote_vault_bump,
        attention_vault_bump: accounts.attention_vault_bump,
    }
}

/// The curve that `create_market` makes from valid arguments.
pub open spec fn created_curve(args: MarketCreationArgs, accounts: MarketAccounts) -> BondingCurve {
    BondingCurve {
        market: accounts.market,
        base_price: args.base_price,
        slope_bps: args.slope_bps,
        curvature_bps: args.curvature_bps,
        supply: 0,
        volume: 0,
        bump: accounts.curve_bump,
    }
}

fn override_or(value: Option<u64>, default: u64) -> (r: u64)
    ensures
        r == or_default(value, default),
{
    match value {
        Some(v) => v,
        None => default,
    }
}

/// Lists a new market in price discovery, with zero supply and volume, and
/// its curve. The market's bonding thresholds are the overrides in `args`
/// where given, else those of `global`.
pub fn create_market(
    global: &GlobalState,
    args: MarketCreationArgs,
    accounts: MarketAccounts,
    created_ts: i64,
) -> (r: Result<(Market, BondingCurve), HyperError>)
    ensures
        creation_error(args) matches Some(e) ==> r == Err::<(Market, BondingCurve), HyperError>(e),
        creation_error(args) is None ==> r == Ok::<(Market, BondingCurve), HyperError>(
            (created_market(*global, args, accounts, created_ts), created_curve(args, accounts)),
        ),
        r matches Ok(pair) ==> pair.0.tracks(pair.1),
{
    if args.max_supply == 0 {
        return Err(HyperError::InvalidSupply);
    }
    if args.base_price == 0 {
        return Err(HyperError::InvalidPrice);
    }
    if args.slope_bps == 0 {
        return Err(HyperError::InvalidSlope);
    }
    if args.max_supply > MAX_SUPPLY_LIMIT {
        return Err(HyperError::SupplyCapExceeded);
    }
    if args.metadata.len() > MAX_METADATA_LEN {
        return Err(HyperError::MetadataTooLong);
    }
    let curve = BondingCurve {
        market: accounts.market,
        base_price: args.base_price,
        slope_bps: args.slope_bps,
        curvature_bps: args.curvature_bps,
        supply: 0,
        volume: 0,
        bump: accounts.curve_bump,
    };
    let market = Market {
        global: accounts.global,
        authority: accounts.authority,
        market_mint: accounts.market_mint,
        quote_vault: accounts.quote_vault,
        attention_vault: accounts.attention_vault,
        state: MarketState::Discovery,
        supply: 0,
        volume: 0,
        trades: 0,
        hype_score: 0,
        base_price: args.base_price,
        slope_bps: args.slope_bps,
        curvature_bps: args.curvature_bps,
        max_supply: args.max_supply,
        bond_volume_target: override_or(args.bond_volume_override, global.bond_volume_target),
        bond_liquidity_target: override_or(args.bond_liquidity_override, global.bond_liquidity_target),
        metadata: args.metadata,
        created_ts,
        bonded_ts: 0,
        bump: accounts.bump,
        quote_vault_bump: accounts.quote_vault_bump,
        attention_vault_bump: accounts.attention_vault_bump,
    };
    Ok((market, curve))
}


/// What a successful trade asks the ledger to move.
///
/// On a buy the trader pays `quote` into the market vault and each fee to its
/// destination, `user_amount` in all, and receives `quantity` new shares. On
/// a sell the trader's `quantity` shares are burnt, the market vault pays the
/// trader `user_amount` (the payout less the fees) and pays each fee.
#[derive(Clone, Copy, Debug, PartialEq, Eq, Structural)]
pub struct TradeSettlement {
    pub direction: TradeDirection,
    pub quantity: u64,
    /// The curve's cost of a buy, or its payout for a sell.
    pub quote: u64,
    pub fees: FeeSplit,
    /// What the trader pays in all on a buy, or receives on a sell.
    pub user_amount: u64,
}

/// The outcome of a trade on `market` and its `curve` under `global`: the
/// settlement, or the first check that fails.
pub open spec fn trade_result(
    global: GlobalState,
    market: Market,
    curve: BondingCurve,
    args: TradeArgs,
) -> Result<TradeSettlement, HyperError> {
    let q = args.quantity;
    if market.state != MarketState::Discovery {
        Err(HyperError::MarketBonded)
    } else if q == 0 {
        Err(HyperError::InvalidAmount)
    } else {
        match args.direction {
            TradeDirection::Buy => {
                if q > market.max_supply - curve.supply {
                    Err(HyperError::SupplyCapExceeded)
                } else {
                    match purchase_quote(curve.base_price, curve.slope_bps, curve.curvature_bps, curve.supply, q) {
                        None => Err(HyperError::MathOverflow),
                        Some(cost) => {
                            let fees = FeeSplit::of_global(cost, global);
                            let total_cost = cost + fees.total_spec();
                            if total_cost > u64::MAX {
                                Err(HyperError::MathOverflow)
                            } else if total_cost > args.max_spend {
                                Err(HyperError::SlippageExceeded)
                            } else if curve.volume + cost > u128::MAX || market.trades + 1 > u64::MAX {
                                Err(HyperError::MathOverflow)
                            } else {
                                Ok(
                                    TradeSettlement {
                                        direction: TradeDirection::Buy,
                                        quantity: q,
                                        quote: cost,
                                        fees,
                                        user_amount: total_cost as u64,
                                    },
                                )
                            }
                        },
                    }
                }
            },
            TradeDirection::Sell => {
                if curve.supply < q {
                    Err(HyperError::InsufficientLiquidity)
                } else {
                    match sale_quote(curve.base_price, curve.slope_bps, curve.curvature_bps, curve.supply, q) {
                        None => Err(HyperError::MathOverflow),
                        Some(payout) => {
                            let fees = FeeSplit::of_global(payout, global);
                            let net_payout = payout - fees.total_spec();
                            if net_payout < args.min_receive {
                                Err(HyperError::SlippageExceeded)
                            } else if curve.volume + payout > u128::MAX || market.trades + 1 > u64::MAX {
                                Err(HyperError::MathOverflow)
                            } else {
                                Ok(
                                    TradeSettlement {
                                        direction: TradeDirection::Sell,
                                        quantity: q,
                                        quote: payout,
                                        fees,
                                        user_amount: net_payout as u64,
                                    },
                                )
                            }
                        },
                    }
                }
            },
        }
    }
}

/// The supply after a settled trade.
pub open spec fn supply_after(supply: u64, settlement: TradeSettlement) -> u64 {
    match settlement.direction {
        TradeDirection::Buy => (supply + settlement.quantity) as u64,
        TradeDirection::Sell => (supply - settlement.quantity) as u64,
    }
}

/// The curve after a settled trade: the supply moves by the quantity and the
/// volume grows by the quote in either direction (volume is turnover).
pub open spec fn curve_after(curve: BondingCurve, settlement: TradeSettlement) -> BondingCurve {
    BondingCurve {
        supply: supply_after(curve.supply, settlement),
        volume: (curve.volume + settlement.quote) as u128,
        ..curve
    }
}

/// The market after a settled trade: it mirrors its curve and counts one more
/// trade.
pub open spec fn market_after(market: Market, settlement: TradeSettlement) -> Market {
    Market {
        supply: supply_after(market.supply, settlement),
        volume: (market.volume + settlement.quote) as u128,
        trades: (market.trades + 1) as u64,
        ..market
    }
}

/// Buys from or sells to the curve of a market in price discovery.
///
/// A buy of `quantity > 0` units within the remaining supply costs the curve
/// quote plus fees, which must not exceed `max_spend`. A sell of
/// `0 < quantity <= supply` units pays the curve quote less fees, which must
/// be at least `min_receive`. On success the supply moves by `quantity`, the
/// volume grows by the quote and the trade count by one; on an error nothing
/// changes.
pub fn trade_curve(
    global: &GlobalState,
    market: &mut Market,
    curve: &mut BondingCurve,
    args: TradeArgs,
) -> (r: Result<TradeSettlement, HyperError>)
    requires
        global.wf(),
        old(market).tracks(*old(curve)),
    ensures
        r == trade_result(*global, *old(market), *old(curve), args),
        r matches Ok(settlement) ==> *final(curve) == curve_after(*old(curve), settlement)
            && *final(market) == market_after(*old(market), settlement),
        r is Err ==> *final(curve) == *old(curve) && *final(market) == *old(market),
        final(market).tracks(*final(curve)),
{
    if market.state != MarketState::Discovery {
        return Err(HyperError::MarketBonded);
    }
    let quantity = args.quantity;
    if quantity == 0 {
        return Err(HyperError::InvalidAmount);
    }
    let settlement = match args.direction {
        TradeDirection::Buy => {
            let remaining_supply: u64 = market.max_supply - curve.supply;
            if quantity > remaining_supply {
                return Err(HyperError::SupplyCapExceeded);
            }
            let cost = match curve.quote_for_purchase(quantity) {
                Some(c) => c,
                None => return Err(HyperError::MathOverflow),
            };
            proof {
                lemma_valid_config_split_within_amount(cost, *global);
            }
            let fees = match FeeSplit::new(cost, global) {
                Ok(f) => f,
                Err(e) => return Err(e),
            };
            let total_cost = match cost.checked_add(fees.total()) {
                Some(t) => t,
                None => return Err(HyperError::MathOverflow),
            };
            if total_cost > args.max_spend {
                return Err(HyperError::SlippageExceeded);
            }
            TradeSettlement {
                direction: TradeDirection::Buy,
                quantity,
                quote: cost,
                fees,
                user_amount: total_cost,
            }
        },
        TradeDirection::Sell => {
            if curve.supply < quantity {
                return Err(HyperError::InsufficientLiquidity);
            }
            let payout = match curve.quote_for_sale(quantity) {
                Some(p) => p,
                None => return Err(HyperError::MathOverflow),
            };
            proof {
                lemma_valid_config_split_within_amount(payout, *global);
            }
            let fees = match FeeSplit::new(payout, global) {
                Ok(f) => f,
                Err(e) => return Err(e),
            };
            let net_payout: u64 = payout - fees.total();
            if net_payout < args.min_receive {
                return Err(HyperError::SlippageExceeded);
            }
            TradeSettlement {
                direction: TradeDirection::Sell,
                quantity,
                quote: payout,
                fees,
                user_amount: net_payout,
            }
        },
    };
    let new_volume = match curve.volume.checked_add(settlement.quote as u128) {
        Some(v) => v,
        None => return Err(HyperError::MathOverflow),
    };
    let new_trades = match market.trades.checked_add(1) {
        Some(t) => t,
        None => return Err(HyperError::MathOverflow),
    };
    let new_supply: u64 = match args.direction {
        TradeDirection::Buy => curve.supply + quantity,
        TradeDirection::Sell => curve.supply - quantity,
    };
    curve.supply = new_supply;
    curve.volume = new_volume;
    market.supply = new_supply;
    market.volume = new_volume;
    market.trades = new_trades;
    Ok(settlement)
}


/// The outcome of bonding `market` when its quote vault holds `vault_balance`:
/// both the volume target and the liquidity target must be met.
pub open spec fn bond_error(market: Market, vault_balance: u64) -> Option<HyperError> {
    if market.state != MarketState::Discovery {
        Some(HyperError::MarketBonded)
    } else if market.volume < market.bond_volume_target {
        Some(HyperError::BondThresholdNotMet)
    } else if vault_balance < market.bond_liquidity_target {
        Some(HyperError::BondThresholdNotMet)
    } else {
        None
    }
}

/// The pending resolution that bonding creates.
pub open spec fn pending_resolution(market_key: Address, resolver: Address, bump: u8, now: i64) -> Resolution {
    Resolution {
        market: market_key,
        resolver,
        state: ResolutionState::Pending,
        outcome: Outcome::Undecided,
        settlement_price: 0,
        created_ts: now,
        resolved_ts: 0,
        bump,
    }
}

/// Bonding needs both targets: a market short of its volume target is
/// refused whatever its vault holds, and so is one that meets the volume
/// target but whose vault is short of the liquidity target. A market still in
/// discovery is then refused with `BondThresholdNotMet`.
pub proof fn lemma_bond_needs_both_targets(market: Market, vault_balance: u64)
    ensures
        market.volume < market.bond_volume_target ==> bond_error(market, vault_balance) is Some,
        vault_balance < market.bond_liquidity_target ==> bond_error(market, vault_balance) is Some,
        market.state == MarketState::Discovery && (market.volume < market.bond_volume_target
            || vault_balance < market.bond_liquidity_target) ==> bond_error(market, vault_balance)
            == Some(HyperError::BondThresholdNotMet),
{
}

/// Closes price discovery: a market in discovery whose volume has reached its
/// volume target and whose quote vault holds at least its liquidity target
/// becomes bonded at `now`, and a pending resolution bound to `resolver` is
/// returned. Otherwise nothing changes.
pub fn bond_market(
    market: &mut Market,
    vault_balance: u64,
    market_key: Address,
    resolver: Address,
    resolution_bump: u8,
    now: i64,
) -> (r: Result<Resolution, HyperError>)
    ensures
        bond_error(*old(market), vault_balance) matches Some(e) ==> r == Err::<Resolution, HyperError>(e)
            && *final(market) == *old(market),
        bond_error(*old(market), vault_balance) is None ==> r == Ok::<Resolution, HyperError>(
            pending_resolution(market_key, resolver, resolution_bump, now),
        ) && *final(market) == (Market { state: MarketState::Bonded, bonded_ts: now, ..*old(market) }),
        r matches Ok(res) ==> res.wf(),
{
    if market.state != MarketState::Discovery {
        return Err(HyperError::MarketBonded);
    }
    if market.volume < market.bond_volume_target as u128 {
        return Err(HyperError::BondThresholdNotMet);
    }
    if vault_balance < market.bond_liquidity_target {
        return Err(HyperError::BondThresholdNotMet);
    }
    market.state = MarketState::Bonded;
    market.bonded_ts = now;
    Ok(Resolution {
        market: market_key,
        resolver,
        state: ResolutionState::Pending,
        outcome: Outcome::Undecided,
        settlement_price: 0,
        created_ts: now,
        resolved_ts: 0,
        bump: resolution_bump,
    })
}

/// The outcome of resolving `resolution`, of a market in `market_state`, to
/// `outcome` at `settlement_price`: the finalized resolution, or the first
/// check that fails.
pub open spec fn resolve_result(
    market_state: MarketState,
    resolution: Resolution,
    outcome: Outcome,
    settlement_price: u64,
    now: i64,
) -> Result<Resolution, HyperError> {
    if market_state != MarketState::Bonded {
        Err(HyperError::MarketNotBonded)
    } else if resolution.state != ResolutionState::Pending {
        Err(HyperError::ResolutionFinal)
    } else if outcome == Outcome::Undecided {
        Err(HyperError::InvalidOutcome)
    } else {
        Ok(
            Resolution {
                state: ResolutionState::Finalized,
                outcome,
                settlement_price,
                resolved_ts: now,
                ..resolution
            },
        )
    }
}

/// Finalizes the resolution of a bonded market, once: the outcome must be
/// `Yes` or `No`. On an error the resolution is left as it was.
pub fn resolve_market(
    market: &Market,
    resolution: &mut Resolution,
    outcome: Outcome,
    settlement_price: u64,
    now: i64,
) -> (r: Result<(), HyperError>)
    ensures
        resolve_result(market.state, *old(resolution), outcome, settlement_price, now) matches Ok(res)
            ==> r is Ok && *final(resolution) == res,
        resolve_result(market.state, *old(resolution), outcome, settlement_price, now) matches Err(e)
            ==> r == Err::<(), HyperError>(e) && *final(resolution) == *old(resolution),
        old(resolution).wf() ==> final(resolution).wf(),
{
    if market.state != MarketState::Bonded {
        return Err(HyperError::MarketNotBonded);
    }
    if resolution.state != ResolutionState::Pending {
        return Err(HyperError::ResolutionFinal);
    }
    if outcome == Outcome::Undecided {
        return Err(HyperError::InvalidOutcome);
    }
    resolution.state = ResolutionState::Finalized;
    resolution.outcome = outcome;
    resolution.settlement_price = settlement_price;
    resolution.resolved_ts = now;
    Ok(())
}

/// Resolution happens once: after one successful resolution, which records
/// the outcome and price given, any further attempt fails with
/// `ResolutionFinal`, whatever it asks for.
pub proof fn lemma_resolve_is_one_shot(
    market_state: MarketState,
    resolution: Resolution,
    outcome: Outcome,
    settlement_price: u64,
    now: i64,
    next_outcome: Outcome,
    next_settlement_price: u64,
    later: i64,
)
    requires
        resolve_result(market_state, resolution, outcome, settlement_price, now) is Ok,
    ensures
        ({
            let first = resolve_result(market_state, resolution, outcome, settlement_price, now)->Ok_0;
            &&& first.outcome == outcome
            &&& first.settlement_price == settlement_price
            &&& first.wf()
            &&& resolve_result(market_state, first, next_outcome, next_settlement_price, later)
                == Err::<Resolution, HyperError>(HyperError::ResolutionFinal)
        }),
{
}

/// What redeeming `quantity` shares against `resolution` pays: nothing on
/// `No`, `settlement_price * quantity` on `Yes`, without fees.
pub open spec fn redeem_result(resolution: Resolution, quantity: u64) -> Result<u64, HyperError> {
    if quantity == 0 {
        Err(HyperError::InvalidAmount)
    } else if resolution.state != ResolutionState::Finalized {
        Err(HyperError::ResolutionPending)
    } else {
        match resolution.outcome {
            Outcome::Yes => if resolution.settlement_price * quantity > u64::MAX {
                Err(HyperError::MathOverflow)
            } else {
                Ok((resolution.settlement_price * quantity) as u64)
            },
            Outcome::No => Ok(0),
            Outcome::Undecided => Err(HyperError::InvalidOutcome),
        }
    }
}

/// On a finalized resolution a `No` outcome pays nothing whatever the
/// settlement price, and a `Yes` outcome pays exactly
/// `settlement_price * quantity`, with no fee taken (or fails with
/// `MathOverflow` when that exceeds 64 bits).
pub proof fn lemma_redeem_pays_by_outcome(resolution: Resolution, quantity: u64)
    requires
        resolution.state == ResolutionState::Finalized,
        quantity > 0,
    ensures
        resolution.outcome == Outcome::No ==> redeem_result(resolution, quantity) == Ok::<u64, HyperError>(0),
        resolution.outcome == Outcome::Yes && resolution.settlement_price * quantity <= u64::MAX
            ==> redeem_result(resolution, quantity) == Ok::<u64, HyperError>(
            (resolution.settlement_price * quantity) as u64,
        ),
        resolution.outcome == Outcome::Yes && resolution.settlement_price * quantity > u64::MAX
            ==> redeem_result(resolution, quantity) == Err::<u64, HyperError>(HyperError::MathOverflow),
{
}

/// Redeems `quantity` shares of a resolved market. On success the shares are
/// to be burnt and the returned payout, when nonzero, paid from the market
/// vault.
pub fn redeem(resolution: &Resolution, quantity: u64) -> (r: Result<u64, HyperError>)
    ensures
        r == redeem_result(*resolution, quantity),
{
    if quantity == 0 {
        return Err(HyperError::InvalidAmount);
    }
    if resolution.state != ResolutionState::Finalized {
        return Err(HyperError::ResolutionPending);
    }
    match resolution.outcome {
        Outcome::Yes => match resolution.settlement_price.checked_mul(quantity) {
            Some(payout) => Ok(payout),
            None => Err(HyperError::MathOverflow),
        },
        Outcome::No => Ok(0),
        Outcome::Undecided => Err(HyperError::InvalidOutcome),
    }
}

/// What a successful harvest asks the ledger to move: the whole attention-fee
/// balance of the market to the global attention vault, and `reward`
/// attention tokens minted to the caller.
#[derive(Clone, Copy, Debug, PartialEq, Eq, Structural)]
pub struct HarvestSettlement {
    pub swept: u64,
    pub reward: u64,
}

/// The first check that harvesting `balance` from `market` fails, if any.
pub open spec fn harvest_error(market: Market, balance: u64) -> Option<HyperError> {
    if balance == 0 {
        Some(HyperError::NothingToHarvest)
    } else if balance * ATTN_REWARD_RATIO > u64::MAX {
        Some(HyperError::MathOverflow)
    } else if market.hype_score + balance > u128::MAX {
        Some(HyperError::MathOverflow)
    } else {
        None
    }
}

/// Sweeps the attention fees a market holds, `balance`, to the protocol: the
/// caller is rewarded with `balance * ATTN_REWARD_RATIO` attention tokens and
/// the market's hype score grows by `balance`. On an error nothing changes.
pub fn harvest_attention(market: &mut Market, balance: u64) -> (r: Result<HarvestSettlement, HyperError>)
    ensures
        harvest_error(*old(market), balance) matches Some(e) ==> r == Err::<HarvestSettlement, HyperError>(e)
            && *final(market) == *old(market),
        harvest_error(*old(market), balance) is None ==> r == Ok::<HarvestSettlement, HyperError>(
            HarvestSettlement { swept: balance, reward: (balance * ATTN_REWARD_RATIO) as u64 },
        ) && *final(market) == (Market {
            hype_score: (old(market).hype_score + balance) as u128,
            ..*old(market)
        }),
{
    if balance == 0 {
        return Err(HyperError::NothingToHarvest);
    }
    let reward = match balance.checked_mul(ATTN_REWARD_RATIO) {
        Some(v) => v,
        None => return Err(HyperError::MathOverflow),
    };
    let hype_score = match market.hype_score.checked_add(balance as u128) {
        Some(v) => v,
        None => return Err(HyperError::MathOverflow),
    };
    market.hype_score = hype_score;
    Ok(HarvestSettlement { swept: balance, reward })
}

} // verus!
