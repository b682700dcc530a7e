//! The full binary market: the simple constant-product market together with
//! selling shares back to the pools and claiming the losing pool after
//! resolution.
//!
//! Value movements are not performed here; each operation returns what the
//! ledger must move, and on an error leaves the entities it was handed as
//! they were.
use crate::address::Address;
use crate::cpmm::{buy_receipt, quote_buy, quote_sell, sell_receipt, BuyReceipt, SellReceipt};
use crate::simple::SEED_LIQUIDITY;
use vstd::prelude::*;

verus! {

#[derive(Clone, Copy, Debug, PartialEq, Eq, Structural)]
pub enum Side {
    Yes,
    No,
}

#[derive(Clone, Copy, Debug, PartialEq, Eq, Structural)]
pub enum MarketStatus {
    Unbonded,
    Bonded,
    Resolved,
}

#[derive(Clone, Copy, Debug, PartialEq, Eq, Structural)]
pub enum ErrorCode {
    AlreadyResolved,
    Unauthorized,
    Unresolved,
    AlreadyClaimed,
    InvalidAmount,
    MathOverflow,
    InsufficientShares,
}

#[derive(Clone, Copy, Debug, PartialEq, Eq, Structural)]
pub struct MarketAccount {
    pub creator: Address,
    pub resolver: Address,
    pub yes_pool: u64,
    pub no_pool: u64,
    pub status: MarketStatus,
    pub winning_side: Option<Side>,
    pub created_at: i64,
}

impl MarketAccount {
    /// A resolved market names its winning side.
    pub open spec fn wf(&self) -> bool {
        self.status == MarketStatus::Resolved ==> self.winning_side is Some
    }

    /// The pool of `side`.
    pub open spec fn pool(&self, side: Side) -> u64 {
        match side {
            Side::Yes => self.yes_pool,
            Side::No => self.no_pool,
        }
    }

    /// The pool of the side opposite to `side`.
    pub open spec fn opposite_pool(&self, side: Side) -> u64 {
        match side {
            Side::Yes => self.no_pool,
            Side::No => self.yes_pool,
        }
    }

    /// This market with the pool of `side` set to `value`.
    pub open spec fn with_pool(self, side: Side, value: u64) -> MarketAccount {
        match side {
            Side::Yes => MarketAccount { yes_pool: value, ..self },
            Side::No => MarketAccount { no_pool: value, ..self },
        }
    }
}

#[derive(Clone, Copy, Debug, PartialEq, Eq, Structural)]
pub struct UserPositionAccount {
    pub user: Address,
    pub market: Address,
    pub yes_shares: u64,
    pub no_shares: u64,
    pub has_claimed: bool,
}

impl UserPositionAccount {
    /// The shares held of `side`.
    pub open spec fn held(&self, side: Side) -> u64 {
        match side {
            Side::Yes => self.yes_shares,
            Side::No => self.no_shares,
        }
    }

    /// This position with the shares of `side` set to `value`.
    pub open spec fn with_held(self, side: Side, value: u64) -> UserPositionAccount {
        match side {
            Side::Yes => UserPositionAccount { yes_shares: value, ..self },
            Side::No => UserPositionAccount { no_shares: value, ..self },
        }
    }
}

/// The market that `create_market` opens.
pub open spec fn opened_market(creator: Address, resolver: Address, created_at: i64) -> MarketAccount {
    MarketAccount {
        creator,
        resolver,
        yes_pool: SEED_LIQUIDITY,
        no_pool: SEED_LIQUIDITY,
        status: MarketStatus::Unbonded,
        winning_side: None,
        created_at,
    }
}

/// Opens a binary market with both pools at the seed liquidity, which the
/// creator funds; `resolver` alone may resolve it.
pub fn create_market(creator: Address, resolver: Address, created_at: i64) -> (r: MarketAccount)
    ensures
        r == opened_market(creator, resolver, created_at),
        r.wf(),
{
    MarketAccount {
        creator,
        resolver,
        yes_pool: SEED_LIQUIDITY,
        no_pool: SEED_LIQUIDITY,
        status: MarketStatus::Unbonded,
        winning_side: None,
        created_at,
    }
}

/// The first check that a purchase of `amount` on `side` fails, if any.
pub open spec fn buy_error(
    market: MarketAccount,
    position: UserPositionAccount,
    side: Side,
    amount: u64,
) -> Option<ErrorCode> {
    let receipt = buy_receipt(market.opposite_pool(side), market.pool(side), amount);
    if amount == 0 {
        Some(ErrorCode::InvalidAmount)
    } else if market.pool(side) + receipt.net > u64::MAX {
        Some(ErrorCode::MathOverflow)
    } else if position.held(side) + receipt.shares > u64::MAX {
        Some(ErrorCode::MathOverflow)
    } else {
        None
    }
}

/// Buys shares of `side` with `amount`: 2% goes to the treasury, the rest to
/// the side's pool, and the shares are issued against the pools as they were
/// before this purchase and credited to the position. On success the buyer is
/// to pay `net` into the side's vault and `fee` to the treasury.
pub fn buy_side(
    market: &mut MarketAccount,
    position: &mut UserPositionAccount,
    side: Side,
    amount: u64,
) -> (r: Result<BuyReceipt, ErrorCode>)
    ensures
        buy_error(*old(market), *old(position), side, amount) matches Some(e) ==> r == Err::<
            BuyReceipt,
            ErrorCode,
        >(e) && *final(market) == *old(market) && *final(position) == *old(position),
        buy_error(*old(market), *old(position), side, amount) is None ==> ({
            let receipt = buy_receipt(old(market).opposite_pool(side), old(market).pool(side), amount);
            &&& r == Ok::<BuyReceipt, ErrorCode>(receipt)
            &&& *final(market) == old(market).with_pool(side, (old(market).pool(side) + receipt.net) as u64)
            &&& *final(position) == old(position).with_held(side, (old(position).held(side) + receipt.shares) as u64)
        }),
        old(market).wf() ==> final(market).wf(),
{
    if amount == 0 {
        return Err(ErrorCode::InvalidAmount);
    }
    let (current_pool, opposite_pool, held) = match side {
        Side::Yes => (market.yes_pool, market.no_pool, position.yes_shares),
        Side::No => (market.no_pool, market.yes_pool, position.no_shares),
    };
    let receipt = quote_buy(opposite_pool, current_pool, amount);
    let new_pool = match current_pool.checked_add(receipt.net) {
        Some(p) => p,
        None => return Err(ErrorCode::MathOverflow),
    };
    let new_held = match held.checked_add(receipt.shares) {
        Some(h) => h,
        None => return Err(ErrorCode::MathOverflow),
    };
    match side {
        Side::Yes => {
            market.yes_pool = new_pool;
            position.yes_shares = new_held;
        },
        Side::No => {
            market.no_pool = new_pool;
            position.no_shares = new_held;
        },
    }
    Ok(receipt)
}

/// Sells `shares` of `side` back to the pools: the payout is what the pool
/// returns for them, 2% of it goes to the treasury, and the side's pool is
/// reduced by the net payout (the fee stays counted in the pool). Fails with
/// `InsufficientShares` when the position holds fewer shares. On success the
/// side's vault is to pay `net_payout` to the seller and `fee` to the
/// treasury.
pub fn sell_shares(
    market: &mut MarketAccount,
    position: &mut UserPositionAccount,
    side: Side,
    shares: u64,
) -> (r: Result<SellReceipt, ErrorCode>)
    ensures
        old(position).held(side) < shares ==> r == Err::<SellReceipt, ErrorCode>(ErrorCode::InsufficientShares)
            && *final(market) == *old(market) && *final(position) == *old(position),
        old(position).held(side) >= shares ==> ({
            let receipt = sell_receipt(old(market).opposite_pool(side), old(market).pool(side), shares);
            &&& r == Ok::<SellReceipt, ErrorCode>(receipt)
            &&& *final(market) == old(market).with_pool(side, (old(market).pool(side) - receipt.net_payout) as u64)
            &&& *final(position) == old(position).with_held(side, (old(position).held(side) - shares) as u64)
        }),
        old(market).wf() ==> final(market).wf(),
{
    let (current_pool, opposite_pool, held) = match side {
        Side::Yes => (market.yes_pool, market.no_pool, position.yes_shares),
        Side::No => (market.no_pool, market.yes_pool, position.no_shares),
    };
    if held < shares {
        return Err(ErrorCode::InsufficientShares);
    }
    let receipt = quote_sell(opposite_pool, current_pool, shares);
    let new_pool: u64 = current_pool - receipt.net_payout;
    let new_held: u64 = held - shares;
    match side {
        Side::Yes => {
            market.yes_pool = new_pool;
            position.yes_shares = new_held;
        },
        Side::No => {
            market.no_pool = new_pool;
            position.no_shares = new_held;
        },
    }
    Ok(receipt)
}

/// The first check that resolving `market` by `resolver` fails, if any.
pub open spec fn resolve_error(market: MarketAccount, resolver: Address) -> Option<ErrorCode> {
    if market.status == MarketStatus::Resolved {
        Some(ErrorCode::AlreadyResolved)
    } else if resolver != market.resolver {
        Some(ErrorCode::Unauthorized)
    } else {
        None
    }
}

/// Resolves the market to `winning_side`, once, and only by its resolver.
pub fn resolve_market(
    market: &mut MarketAccount,
    resolver: Address,
    winning_side: Side,
) -> (r: Result<(), ErrorCode>)
    ensures
        resolve_error(*old(market), resolver) matches Some(e) ==> r == Err::<(), ErrorCode>(e)
            && *final(market) == *old(market),
        resolve_error(*old(market), resolver) is None ==> r is Ok && *final(market) == (MarketAccount {
            winning_side: Some(winning_side),
            status: MarketStatus::Resolved,
            ..*old(market)
        }),
        r is Ok ==> final(market).wf(),
        old(market).wf() ==> final(market).wf(),
{
    if market.status == MarketStatus::Resolved {
        return Err(ErrorCode::AlreadyResolved);
    }
    if resolver != market.resolver {
        return Err(ErrorCode::Unauthorized);
    }
    market.winning_side = Some(winning_side);
    market.status = MarketStatus::Resolved;
    Ok(())
}

/// What claiming pays `position` on `market`: the winning shares' pro-rata
/// part of the losing pool, `winning_shares * losing_pool / winning_pool`,
/// or the first check that fails. An empty winning pool, or a payout beyond
/// 64 bits, is `MathOverflow`.
pub open spec fn claim_result(market: MarketAccount, position: UserPositionAccount) -> Result<u64, ErrorCode> {
    if market.status != MarketStatus::Resolved {
        Err(ErrorCode::Unresolved)
    } else if position.has_claimed {
        Err(ErrorCode::AlreadyClaimed)
    } else {
        match market.winning_side {
            None => Err(ErrorCode::Unresolved),
            Some(side) => {
                let winning_pool = market.pool(side);
                if winning_pool == 0 {
                    Err(ErrorCode::MathOverflow)
                } else {
                    let payout = position.held(side) * market.opposite_pool(side) / (winning_pool as int);
                    if payout > u64::MAX {
                        Err(ErrorCode::MathOverflow)
                    } else {
                        Ok(payout as u64)
                    }
                }
            },
        }
    }
}

/// Pays a position its part of the losing pool, once. On success the
/// position is marked claimed and the losing side's vault is to pay the
/// returned amount to the claimer.
pub fn claim(market: &MarketAccount, position: &mut UserPositionAccount) -> (r: Result<u64, ErrorCode>)
    ensures
        r == claim_result(*market, *old(position)),
        r is Ok ==> *final(position) == (UserPositionAccount { has_claimed: true, ..*old(position) }),
        r is Err ==> *final(position) == *old(position),
{
    if market.status != MarketStatus::Resolved {
        return Err(ErrorCode::Unresolved);
    }
    if position.has_claimed {
        return Err(ErrorCode::AlreadyClaimed);
    }
    let (winning_pool, losing_pool, held) = match market.winning_side {
        Some(Side::Yes) => (market.yes_pool, market.no_pool, position.yes_shares),
        Some(Side::No) => (market.no_pool, market.yes_pool, position.no_shares),
        None => return Err(ErrorCode::Unresolved),
    };
    if winning_pool == 0 {
        return Err(ErrorCode::MathOverflow);
    }
    proof {
        assert(0 <= (held as int) * (losing_pool as int) <= (u64::MAX as int) * (u64::MAX as int)) by (nonlinear_arith);
    }
    let payout: u128 = (held as u128) * (losing_pool as u128) / (winning_pool as u128);
    if payout > u64::MAX as u128 {
        return Err(ErrorCode::MathOverflow);
    }
    position.has_claimed = true;
    Ok(payout as u64)
}

} // verus!
