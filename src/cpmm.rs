//! Constant-product pricing for a pair of outcome pools.
//!
//! A buyer of one side adds to that side's pool; the shares issued are how far
//! the opposite pool would shrink if the product of the two pools were held
//! constant. Selling shares runs the same rule the other way. Products are
//! formed in the 128-bit domain, where two 64-bit pools cannot overflow.
use vstd::arithmetic::div_mod::{lemma_div_by_multiple, lemma_div_is_ordered};
use vstd::prelude::*;

verus! {

/// The protocol keeps one part in this many of each trade as its fee.
pub const FEE_DIVISOR: u64 = 50;

/// Shares issued for adding `amount` to `current_pool` against
/// `opposite_pool`: `opposite - opposite * current / (current + amount)`,
/// rounded so that the opposite pool's implied balance is rounded down; all of
/// the opposite pool when both `current_pool` and `amount` are zero.
pub open spec fn shares_issued(opposite_pool: u64, current_pool: u64, amount: u64) -> int {
    if current_pool + amount == 0 {
        opposite_pool as int
    } else {
        opposite_pool - (opposite_pool * current_pool) / (current_pool + amount)
    }
}

/// Payout for returning `shares` against `opposite_pool` from `current_pool`:
/// `current - opposite * current / (opposite + shares)`; all of the current
/// pool when both `opposite_pool` and `shares` are zero.
pub open spec fn return_paid(opposite_pool: u64, current_pool: u64, shares: u64) -> int {
    if opposite_pool + shares == 0 {
        current_pool as int
    } else {
        current_pool - (opposite_pool * current_pool) / (opposite_pool + shares)
    }
}

proof fn lemma_scaled_share_bounds(pool: u64, other: u64, denominator: int)
    requires
        other <= denominator,
        denominator > 0,
    ensures
        0 <= (pool as int) * (other as int) <= (u64::MAX as int) * (u64::MAX as int),
        0 <= (pool * other) / denominator <= pool,
{
    assert(0 <= (pool as int) * (other as int) <= (u64::MAX as int) * (u64::MAX as int)) by (nonlinear_arith);
    assert((pool as int) * (other as int) <= (pool as int) * denominator) by (nonlinear_arith)
        requires
            other <= denominator,
    ;
    lemma_div_is_ordered((pool as int) * (other as int), (pool as int) * denominator, denominator);
    lemma_div_by_multiple(pool as int, denominator);
}

proof fn lemma_pool_product_fits(a: u64, b: u64)
    ensures
        0 <= (a as int) * (b as int) <= u128::MAX,
{
    assert(0 <= (a as int) * (b as int) <= (u64::MAX as int) * (u64::MAX as int)) by (nonlinear_arith);
}

/// Shares issued for adding `amount` to `current_pool` against
/// `opposite_pool`; never more than `opposite_pool`.
pub fn issue_shares(opposite_pool: u64, current_pool: u64, amount: u64) -> (r: u64)
    ensures
        r == shares_issued(opposite_pool, current_pool, amount),
        r <= opposite_pool,
{
    proof {
        lemma_pool_product_fits(opposite_pool, current_pool);
    }
    let k: u128 = (opposite_pool as u128) * (current_pool as u128);
    let new_pool: u128 = current_pool as u128 + amount as u128;
    if new_pool == 0 {
        return opposite_pool;
    }
    proof {
        lemma_scaled_share_bounds(opposite_pool, current_pool, new_pool as int);
    }
    let new_opposite: u128 = k / new_pool;
    (opposite_pool as u128 - new_opposite) as u64
}

/// Payout for returning `shares` against `opposite_pool` from `current_pool`;
/// never more than `current_pool`.
pub fn redeem_return(opposite_pool: u64, current_pool: u64, shares: u64) -> (r: u64)
    ensures
        r == return_paid(opposite_pool, current_pool, shares),
        r <= current_pool,
{
    proof {
        lemma_pool_product_fits(opposite_pool, current_pool);
    }
    let k: u128 = (opposite_pool as u128) * (current_pool as u128);
    let new_opposite: u128 = opposite_pool as u128 + shares as u128;
    if new_opposite == 0 {
        return current_pool;
    }
    proof {
        lemma_scaled_share_bounds(current_pool, opposite_pool, new_opposite as int);
        assert((opposite_pool as int) * (current_pool as int) == (current_pool as int) * (opposite_pool as int)) by (nonlinear_arith);
    }
    let new_pool: u128 = k / new_opposite;
    (current_pool as u128 - new_pool) as u64
}

/// Buying shares with `amount` and selling them straight back, against the
/// pools as the purchase left them, returns at most `amount`, whenever the
/// shares issued are worth no more than the amount at the pools' ratio
/// (`current_pool * shares <= opposite_pool * amount`) and the opposite pool
/// is not empty unless both are. (Rounding in the buyer's favour can break
/// the ratio on uneven pools, and then the round trip gains.)
pub proof fn lemma_round_trip_never_profits(opposite_pool: u64, current_pool: u64, amount: u64)
    requires
        current_pool + amount <= u64::MAX,
        opposite_pool > 0 || current_pool == 0,
        current_pool * shares_issued(opposite_pool, current_pool, amount) <= opposite_pool * amount,
    ensures
        return_paid(
            opposite_pool,
            (current_pool + amount) as u64,
            shares_issued(opposite_pool, current_pool, amount) as u64,
        ) <= amount,
{
    let n = opposite_pool as int;
    let y = current_pool as int;
    let a = amount as int;
    let y2 = (current_pool + amount) as u64;
    if y + a > 0 {
        lemma_scaled_share_bounds(opposite_pool, current_pool, y + a);
    }
    let sh = shares_issued(opposite_pool, current_pool, amount);
    assert(0 <= sh <= n);
    if n > 0 {
        let d = n + sh;
        assert(y * d <= n * (y + a)) by (nonlinear_arith)
            requires
                y * sh <= n * a,
                d == n + sh,
        ;
        assert(n * y2 == n * (y + a));
        lemma_div_is_ordered(y * d, n * (y + a), d);
        lemma_div_by_multiple(y, d);
    }
}


/// A purchase of shares: the protocol fee taken off the top of the amount,
/// the rest credited to the bought side's pool, and the shares issued for it.
#[derive(Clone, Copy, Debug, PartialEq, Eq, Structural)]
pub struct BuyReceipt {
    pub fee: u64,
    pub net: u64,
    pub shares: u64,
}

/// The purchase of `amount` against the pools as they stand before it.
pub open spec fn buy_receipt(opposite_pool: u64, current_pool: u64, amount: u64) -> BuyReceipt {
    let fee = amount / FEE_DIVISOR;
    let net = (amount - fee) as u64;
    BuyReceipt { fee, net, shares: shares_issued(opposite_pool, current_pool, net) as u64 }
}

/// Prices a purchase of `amount`: a fee of `amount / 50` (2%, rounded down)
/// and shares for the rest, issued against the pools before the purchase.
pub fn quote_buy(opposite_pool: u64, current_pool: u64, amount: u64) -> (r: BuyReceipt)
    ensures
        r == buy_receipt(opposite_pool, current_pool, amount),
        r.fee + r.net == amount,
        r.shares <= opposite_pool,
{
    let fee = amount / FEE_DIVISOR;
    let net = amount - fee;
    let shares = issue_shares(opposite_pool, current_pool, net);
    BuyReceipt { fee, net, shares }
}

/// A sale of shares: the pool's payout, the protocol fee taken from it, and
/// what the seller receives.
#[derive(Clone, Copy, Debug, PartialEq, Eq, Structural)]
pub struct SellReceipt {
    pub payout: u64,
    pub fee: u64,
    pub net_payout: u64,
}

/// The sale of `shares` against the pools as they stand before it.
pub open spec fn sell_receipt(opposite_pool: u64, current_pool: u64, shares: u64) -> SellReceipt {
    let payout = return_paid(opposite_pool, current_pool, shares) as u64;
    let fee = payout / FEE_DIVISOR;
    SellReceipt { payout, fee, net_payout: (payout - fee) as u64 }
}

/// Prices a sale of `shares`: the pool's payout, less a fee of `payout / 50`.
pub fn quote_sell(opposite_pool: u64, current_pool: u64, shares: u64) -> (r: SellReceipt)
    ensures
        r == sell_receipt(opposite_pool, current_pool, shares),
        r.fee + r.net_payout == r.payout,
        r.payout <= current_pool,
{
    let payout = redeem_return(opposite_pool, current_pool, shares);
    let fee = payout / FEE_DIVISOR;
    SellReceipt { payout, fee, net_payout: payout - fee }
}

} // verus!
