//! The simple binary market: two native-asset pools, Yes and No, priced by
//! the constant-product rule, with per-user share positions.
//!
//! Value movements are not performed here; each operation returns what the
//! ledger must move, and on an error leaves the entities it was handed as
//! they were.
use crate::address::Address;
use crate::cpmm::{buy_receipt, quote_buy, BuyReceipt};
use vstd::prelude::*;

verus! {

/// Liquidity that the creator seeds each pool with.
pub const SEED_LIQUIDITY: u64 = 500_000_000;

#[derive(Clone, Copy, Debug, PartialEq, Eq, Structural)]
pub enum BinarySide {
    Yes,
    No,
}

#[derive(Clone, Copy, Debug, PartialEq, Eq, Structural)]
pub enum SimpleMarketStatus {
    Unbonded,
    Bonded,
    Resolved,
}

#[derive(Clone, Copy, Debug, PartialEq, Eq, Structural)]
pub enum ErrorCodeSimple {
    InvalidAmount,
    MathOverflow,
    AlreadyResolved,
    Unauthorized,
    BumpMissing,
}

#[derive(Clone, Copy, Debug, PartialEq, Eq, Structural)]
pub struct SimpleMarketAccount {
    pub creator: Address,
    pub resolver: Address,
    pub yes_pool: u64,
    pub no_pool: u64,
    pub status: SimpleMarketStatus,
    pub winning_side: Option<BinarySide>,
    pub created_at: i64,
    pub yes_vault_bump: u8,
    pub no_vault_bump: u8,
}

impl SimpleMarketAccount {
    /// A resolved market names its winning side.
    pub open spec fn wf(&self) -> bool {
        self.status == SimpleMarketStatus::Resolved ==> self.winning_side is Some
    }

    /// The pool of `side`.
    pub open spec fn pool(&self, side: BinarySide) -> u64 {
        match side {
            BinarySide::Yes => self.yes_pool,
            BinarySide::No => self.no_pool,
        }
    }

    /// The pool of the side opposite to `side`.
    pub open spec fn opposite_pool(&self, side: BinarySide) -> u64 {
        match side {
            BinarySide::Yes => self.no_pool,
            BinarySide::No => self.yes_pool,
        }
    }

    /// This market with the pool of `side` set to `value`.
    pub open spec fn with_pool(self, side: BinarySide, value: u64) -> SimpleMarketAccount {
        match side {
            BinarySide::Yes => SimpleMarketAccount { yes_pool: value, ..self },
            BinarySide::No => SimpleMarketAccount { no_pool: value, ..self },
        }
    }
}

#[derive(Clone, Copy, Debug, PartialEq, Eq, Structural)]
pub struct UserPositionSimple {
    pub user: Address,
    pub market: Address,
    pub yes_shares: u64,
    pub no_shares: u64,
    pub has_claimed: bool,
}

impl UserPositionSimple {
    /// The shares held of `side`.
    pub open spec fn held(&self, side: BinarySide) -> u64 {
        match side {
            BinarySide::Yes => self.yes_shares,
            BinarySide::No => self.no_shares,
        }
    }

    /// This position with the shares of `side` set to `value`.
    pub open spec fn with_held(self, side: BinarySide, value: u64) -> UserPositionSimple {
        match side {
            BinarySide::Yes => UserPositionSimple { yes_shares: value, ..self },
            BinarySide::No => UserPositionSimple { no_shares: value, ..self },
        }
    }

    /// This position, claimed for `user` in `market` if nobody held it yet.
    pub open spec fn claimed_by(self, user: Address, market: Address) -> UserPositionSimple {
        if self.user == Address::zero_spec() {
            UserPositionSimple { user, market, ..self }
        } else {
            self
        }
    }
}

/// The market that `create_market_simple` opens.
pub open spec fn opened_simple_market(
    creator: Address,
    resolver: Address,
    created_at: i64,
    yes_vault_bump: u8,
    no_vault_bump: u8,
) -> SimpleMarketAccount {
    SimpleMarketAccount {
        creator,
        resolver,
        yes_pool: SEED_LIQUIDITY,
        no_pool: SEED_LIQUIDITY,
        status: SimpleMarketStatus::Unbonded,
        winning_side: None,
        created_at,
        yes_vault_bump,
        no_vault_bump,
    }
}

/// Opens a binary market with both pools at the seed liquidity, which the
/// creator funds; `resolver` alone may resolve it.
pub fn create_market_simple(
    creator: Address,
    resolver: Address,
    created_at: i64,
    yes_vault_bump: u8,
    no_vault_bump: u8,
) -> (r: SimpleMarketAccount)
    ensures
        r == opened_simple_market(creator, resolver, created_at, yes_vault_bump, no_vault_bump),
        r.wf(),
{
    SimpleMarketAccount {
        creator,
        resolver,
        yes_pool: SEED_LIQUIDITY,
        no_pool: SEED_LIQUIDITY,
        status: SimpleMarketStatus::Unbonded,
        winning_side: None,
        created_at,
        yes_vault_bump,
        no_vault_bump,
    }
}

/// The first check that a purchase of `amount` on `side` fails, if any.
pub open spec fn simple_buy_error(
    market: SimpleMarketAccount,
    position: UserPositionSimple,
    side: BinarySide,
    amount: u64,
) -> Option<ErrorCodeSimple> {
    let receipt = buy_receipt(market.opposite_pool(side), market.pool(side), amount);
    if amount == 0 {
        Some(ErrorCodeSimple::InvalidAmount)
    } else if market.pool(side) + receipt.net > u64::MAX {
        Some(ErrorCodeSimple::MathOverflow)
    } else if position.held(side) + receipt.shares > u64::MAX {
        Some(ErrorCodeSimple::MathOverflow)
    } else {
        None
    }
}

/// Buys shares of `side` with `amount`: 2% goes to the treasury, the rest to
/// the side's pool, and the shares are issued against the pools as they were
/// before this purchase and credited to the position. A position that nobody
/// held yet is claimed for `buyer`. On success the buyer is to pay
/// `net` into the side's vault and `fee` to the treasury.
pub fn buy_side_simple(
    market: &mut SimpleMarketAccount,
    position: &mut UserPositionSimple,
    market_key: Address,
    buyer: Address,
    side: BinarySide,
    amount: u64,
) -> (r: Result<BuyReceipt, ErrorCodeSimple>)
    ensures
        simple_buy_error(*old(market), *old(position), side, amount) matches Some(e) ==> r == Err::<
            BuyReceipt,
            ErrorCodeSimple,
        >(e) && *final(market) == *old(market) && *final(position) == *old(position),
        simple_buy_error(*old(market), *old(position), side, amount) is None ==> ({
            let receipt = buy_receipt(old(market).opposite_pool(side), old(market).pool(side), amount);
            &&& r == Ok::<BuyReceipt, ErrorCodeSimple>(receipt)
            &&& *final(market) == old(market).with_pool(side, (old(market).pool(side) + receipt.net) as u64)
            &&& *final(position) == old(position).claimed_by(buyer, market_key).with_held(
                side,
                (old(position).held(side) + receipt.shares) as u64,
            )
        }),
        old(market).wf() ==> final(market).wf(),
{
    if amount == 0 {
        return Err(ErrorCodeSimple::InvalidAmount);
    }
    let (current_pool, opposite_pool, held) = match side {
        BinarySide::Yes => (market.yes_pool, market.no_pool, position.yes_shares),
        BinarySide::No => (market.no_pool, market.yes_pool, position.no_shares),
    };
    let receipt = quote_buy(opposite_pool, current_pool, amount);
    let new_pool = match current_pool.checked_add(receipt.net) {
        Some(p) => p,
        None => return Err(ErrorCodeSimple::MathOverflow),
    };
    let new_held = match held.checked_add(receipt.shares) {
        Some(h) => h,
        None => return Err(ErrorCodeSimple::MathOverflow),
    };
    if position.user == Address::zero() {
        position.user = buyer;
        position.market = market_key;
    }
    match side {
        BinarySide::Yes => {
            market.yes_pool = new_pool;
            position.yes_shares = new_held;
        },
        BinarySide::No => {
            market.no_pool = new_pool;
            position.no_shares = new_held;
        },
    }
    Ok(receipt)
}

/// The first check that resolving `market` by `resolver` fails, if any.
pub open spec fn simple_resolve_error(market: SimpleMarketAccount, resolver: Address) -> Option<ErrorCodeSimple> {
    if market.status == SimpleMarketStatus::Resolved {
        Some(ErrorCodeSimple::AlreadyResolved)
    } else if resolver != market.resolver {
        Some(ErrorCodeSimple::Unauthorized)
    } else {
        None
    }
}

/// Resolves the market to `winning`, once, and only by its resolver.
pub fn resolve_market_simple(
    market: &mut SimpleMarketAccount,
    resolver: Address,
    winning: BinarySide,
) -> (r: Result<(), ErrorCodeSimple>)
    ensures
        simple_resolve_error(*old(market), resolver) matches Some(e) ==> r == Err::<(), ErrorCodeSimple>(e)
            && *final(market) == *old(market),
        simple_resolve_error(*old(market), resolver) is None ==> r is Ok && *final(market) == (
        SimpleMarketAccount {
            winning_side: Some(winning),
            status: SimpleMarketStatus::Resolved,
            ..*old(market)
        }),
        r is Ok ==> final(market).wf(),
        old(market).wf() ==> final(market).wf(),
{
    if market.status == SimpleMarketStatus::Resolved {
        return Err(ErrorCodeSimple::AlreadyResolved);
    }
    if resolver != market.resolver {
        return Err(ErrorCodeSimple::Unauthorized);
    }
    market.winning_side = Some(winning);
    market.status = SimpleMarketStatus::Resolved;
    Ok(())
}

} // verus!
