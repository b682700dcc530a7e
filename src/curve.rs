//! Fixed-point bonding-curve pricing.
//!
//! The price of the unit bought at supply `s` is, schematically,
//! `base_price + slope_bps * s / 10^4 + curvature_bps * s^2 / 10^9`. A batch of
//! `q` units starting at supply `s` costs the discrete integral of that price,
//! evaluated in the 128-bit domain term by term, each division truncating.
use crate::address::Address;
use vstd::arithmetic::div_mod::lemma_div_is_ordered;
use vstd::prelude::*;

verus! {

/// Divisor of the slope coefficient (basis points).
pub const SLOPE_SCALE: u128 = 10_000;

/// Divisor of the curvature coefficient.
pub const CURVATURE_SCALE: u128 = 1_000_000_000;

/// `q * (q - 1) * (2 * s + q - 1)`: the sum-of-squares factor of the
/// curvature term, which is computed in the 128-bit domain.
pub open spec fn curvature_span(supply: int, quantity: int) -> int {
    quantity * (quantity - 1) * (2 * supply + quantity - 1)
}

/// Exact cost, before narrowing, of buying `quantity` units starting at `supply`.
pub open spec fn purchase_cost(
    base_price: int,
    slope_bps: int,
    curvature_bps: int,
    supply: int,
    quantity: int,
) -> int {
    quantity * (base_price + slope_bps * supply / 10_000)
        + slope_bps * (quantity * (quantity - 1) / 2) / 10_000
        + curvature_bps * curvature_span(supply, quantity) / 1_000_000_000
}

/// What a purchase quote returns: the cost when the quantity is positive, the
/// sum-of-squares factor fits in 128 bits and the cost fits in 64 bits.
pub open spec fn purchase_quote(
    base_price: u64,
    slope_bps: u64,
    curvature_bps: u64,
    supply: u64,
    quantity: u64,
) -> Option<u64> {
    let cost = purchase_cost(
        base_price as int,
        slope_bps as int,
        curvature_bps as int,
        supply as int,
        quantity as int,
    );
    if quantity > 0 && curvature_span(supply as int, quantity as int) <= u128::MAX && cost
        <= u64::MAX {
        Some(cost as u64)
    } else {
        None
    }
}

/// What a sale quote returns: the purchase quote of the same quantity taken
/// from the supply that remains after the sale; nothing when the sale would
/// take more than the supply.
pub open spec fn sale_quote(
    base_price: u64,
    slope_bps: u64,
    curvature_bps: u64,
    supply: u64,
    quantity: u64,
) -> Option<u64> {
    if quantity > supply {
        None
    } else {
        purchase_quote(base_price, slope_bps, curvature_bps, (supply - quantity) as u64, quantity)
    }
}

proof fn lemma_product_fits_u128(a: u64, b: u64)
    ensures
        0 <= (a as int) * (b as int) <= u128::MAX,
{
    assert(0 <= (a as int) * (b as int) <= (u64::MAX as int) * (u64::MAX as int)) by (nonlinear_arith);
}

proof fn lemma_product_nonneg(a: int, b: int)
    requires
        0 <= a,
        0 <= b,
    ensures
        0 <= a * b,
{
    assert(0 <= a * b) by (nonlinear_arith)
        requires
            0 <= a,
            0 <= b,
    ;
}

/// Each of the three terms of a purchase cost is non-negative.
proof fn lemma_cost_terms_nonneg(base_price: u64, slope_bps: u64, curvature_bps: u64, supply: u64, quantity: u64)
    requires
        quantity > 0,
    ensures
        0 <= (quantity as int) * (base_price + slope_bps * supply / 10_000),
        0 <= slope_bps * ((quantity as int) * (quantity - 1) / 2) / 10_000,
        0 <= curvature_span(supply as int, quantity as int),
        0 <= curvature_bps * curvature_span(supply as int, quantity as int) / 1_000_000_000,
{
    let q = quantity as int;
    lemma_product_nonneg(slope_bps as int, supply as int);
    lemma_product_nonneg(q, base_price + slope_bps * supply / 10_000);
    lemma_product_nonneg(q, q - 1);
    lemma_product_nonneg(slope_bps as int, q * (q - 1) / 2);
    lemma_product_nonneg(q * (q - 1), 2 * supply + q - 1);
    lemma_product_nonneg(curvature_bps as int, curvature_span(supply as int, q));
}

/// Cost of buying `quantity` units against the curve `(base_price, slope_bps,
/// curvature_bps)` from `current_supply`; `None` when a step of the 128-bit
/// computation overflows, when the cost does not fit in 64 bits, or when
/// `quantity` is zero.
pub fn price_integral_buy(
    base_price: u64,
    slope_bps: u64,
    curvature_bps: u64,
    current_supply: u64,
    quantity: u64,
) -> (r: Option<u64>)
    ensures
        r == purchase_quote(base_price, slope_bps, curvature_bps, current_supply, quantity),
{
    if quantity == 0 {
        return None;
    }
    let base: u128 = base_price as u128;
    let slope: u128 = slope_bps as u128;
    let curvature: u128 = curvature_bps as u128;
    let supply: u128 = current_supply as u128;
    let qty: u128 = quantity as u128;
    proof {
        lemma_product_fits_u128(slope_bps, current_supply);
        lemma_product_fits_u128(quantity, (quantity - 1) as u64);
        lemma_cost_terms_nonneg(base_price, slope_bps, curvature_bps, current_supply, quantity);
    }
    let unit_price: u128 = base + slope * supply / SLOPE_SCALE;
    let linear_term: u128 = match qty.checked_mul(unit_price) {
        Some(v) => v,
        None => return None,
    };
    let pairs: u128 = qty * (qty - 1);
    let slope_component: u128 = match slope.checked_mul(pairs / 2) {
        Some(v) => v / SLOPE_SCALE,
        None => return None,
    };
    let span: u128 = match pairs.checked_mul(supply * 2 + (qty - 1)) {
        Some(v) => v,
        None => return None,
    };
    let curvature_component: u128 = match curvature.checked_mul(span) {
        Some(v) => v / CURVATURE_SCALE,
        None => return None,
    };
    let total: u128 = match linear_term.checked_add(slope_component) {
        Some(v) => match v.checked_add(curvature_component) {
            Some(w) => w,
            None => return None,
        },
        None => return None,
    };
    if total > u64::MAX as u128 {
        None
    } else {
        Some(total as u64)
    }
}


/// Payout for selling `quantity` units back to the curve from
/// `current_supply`: the purchase formula evaluated from the supply that
/// remains after the sale. `None` when `quantity` exceeds the supply, when
/// `quantity` is zero, or on overflow.
pub fn price_integral_sell(
    base_price: u64,
    slope_bps: u64,
    curvature_bps: u64,
    current_supply: u64,
    quantity: u64,
) -> (r: Option<u64>)
    ensures
        r == sale_quote(base_price, slope_bps, curvature_bps, current_supply, quantity),
{
    if quantity > current_supply {
        return None;
    }
    let new_supply: u64 = current_supply - quantity;
    price_integral_buy(base_price, slope_bps, curvature_bps, new_supply, quantity)
}


proof fn lemma_mul_le(a: int, b1: int, b2: int)
    requires
        0 <= a,
        b1 <= b2,
    ensures
        a * b1 <= a * b2,
{
    assert(a * b1 <= a * b2) by (nonlinear_arith)
        requires
            0 <= a,
            b1 <= b2,
    ;
}

/// The sum-of-squares factor grows with the supply.
proof fn lemma_span_monotone_in_supply(s1: int, s2: int, q: int)
    requires
        0 <= s1 <= s2,
        1 <= q,
    ensures
        0 <= curvature_span(s1, q) <= curvature_span(s2, q),
{
    lemma_product_nonneg(q, q - 1);
    lemma_mul_le(q * (q - 1), 2 * s1 + q - 1, 2 * s2 + q - 1);
    lemma_product_nonneg(q * (q - 1), 2 * s1 + q - 1);
}

/// The sum-of-squares factor grows with the quantity.
proof fn lemma_span_monotone_in_quantity(s: int, q1: int, q2: int)
    requires
        0 <= s,
        1 <= q1 <= q2,
    ensures
        0 <= curvature_span(s, q1) <= curvature_span(s, q2),
        q1 * (q1 - 1) <= q2 * (q2 - 1),
{
    assert(0 <= q1 * (q1 - 1) <= q2 * (q2 - 1)) by (nonlinear_arith)
        requires
            1 <= q1 <= q2,
    ;
    lemma_mul_le(q1 * (q1 - 1), 2 * s + q1 - 1, 2 * s + q2 - 1);
    lemma_mul_le(2 * s + q2 - 1, q1 * (q1 - 1), q2 * (q2 - 1));
    lemma_product_nonneg(q1 * (q1 - 1), 2 * s + q1 - 1);
}

/// A purchase of more units from the same supply costs strictly more, as long
/// as the base price is positive: whenever the larger purchase can be quoted,
/// the smaller one can be too, and for less.
pub proof fn lemma_purchase_strictly_increasing_in_quantity(
    base_price: u64,
    slope_bps: u64,
    curvature_bps: u64,
    supply: u64,
    q1: u64,
    q2: u64,
)
    requires
        base_price > 0,
        0 < q1 < q2,
        purchase_quote(base_price, slope_bps, curvature_bps, supply, q2) is Some,
    ensures
        purchase_quote(base_price, slope_bps, curvature_bps, supply, q1) is Some,
        purchase_quote(base_price, slope_bps, curvature_bps, supply, q1)->0 < purchase_quote(
            base_price,
            slope_bps,
            curvature_bps,
            supply,
            q2,
        )->0,
{
    let unit = base_price + slope_bps * supply / 10_000;
    lemma_product_nonneg(slope_bps as int, supply as int);
    assert((q1 as int) * unit < (q2 as int) * unit) by (nonlinear_arith)
        requires
            unit >= 1,
            q1 < q2,
    ;
    lemma_span_monotone_in_quantity(supply as int, q1 as int, q2 as int);
    lemma_div_is_ordered((q1 as int) * (q1 - 1), (q2 as int) * (q2 - 1), 2);
    lemma_mul_le(slope_bps as int, (q1 as int) * (q1 - 1) / 2, (q2 as int) * (q2 - 1) / 2);
    lemma_div_is_ordered(
        slope_bps * ((q1 as int) * (q1 - 1) / 2),
        slope_bps * ((q2 as int) * (q2 - 1) / 2),
        10_000,
    );
    lemma_mul_le(
        curvature_bps as int,
        curvature_span(supply as int, q1 as int),
        curvature_span(supply as int, q2 as int),
    );
    lemma_div_is_ordered(
        curvature_bps * curvature_span(supply as int, q1 as int),
        curvature_bps * curvature_span(supply as int, q2 as int),
        1_000_000_000,
    );
    lemma_cost_terms_nonneg(base_price, slope_bps, curvature_bps, supply, q1);
}

/// A purchase of the same quantity from a larger supply never costs less:
/// whenever the purchase from the larger supply can be quoted, the one from
/// the smaller supply can be too, for at most as much.
pub proof fn lemma_purchase_monotone_in_supply(
    base_price: u64,
    slope_bps: u64,
    curvature_bps: u64,
    s1: u64,
    s2: u64,
    quantity: u64,
)
    requires
        s1 <= s2,
        purchase_quote(base_price, slope_bps, curvature_bps, s2, quantity) is Some,
    ensures
        purchase_quote(base_price, slope_bps, curvature_bps, s1, quantity) is Some,
        purchase_quote(base_price, slope_bps, curvature_bps, s1, quantity)->0
            <= purchase_quote(base_price, slope_bps, curvature_bps, s2, quantity)->0,
{
    lemma_supply_terms_ordered(base_price, slope_bps, curvature_bps, s1, s2, quantity);
}

/// The terms of a purchase cost that depend on the supply are ordered as the
/// supplies are.
proof fn lemma_supply_terms_ordered(
    base_price: u64,
    slope_bps: u64,
    curvature_bps: u64,
    s1: u64,
    s2: u64,
    quantity: u64,
)
    requires
        s1 <= s2,
        quantity > 0,
    ensures
        slope_bps * s1 / 10_000 <= slope_bps * s2 / 10_000,
        (quantity as int) * (base_price + slope_bps * s1 / 10_000) <= (quantity as int) * (
        base_price + slope_bps * s2 / 10_000),
        slope_bps * s1 / 10_000 < slope_bps * s2 / 10_000 ==> (quantity as int) * (base_price
            + slope_bps * s1 / 10_000) < (quantity as int) * (base_price + slope_bps * s2
            / 10_000),
        0 <= curvature_span(s1 as int, quantity as int) <= curvature_span(
            s2 as int,
            quantity as int,
        ),
        curvature_bps * curvature_span(s1 as int, quantity as int) / 1_000_000_000
            <= curvature_bps * curvature_span(s2 as int, quantity as int) / 1_000_000_000,
{
    let q = quantity as int;
    lemma_mul_le(slope_bps as int, s1 as int, s2 as int);
    lemma_div_is_ordered(slope_bps * s1, slope_bps * s2, 10_000);
    let u1 = base_price + slope_bps * s1 / 10_000;
    let u2 = base_price + slope_bps * s2 / 10_000;
    lemma_mul_le(q, u1, u2);
    assert(u1 < u2 ==> q * u1 < q * u2) by (nonlinear_arith)
        requires
            q >= 1,
    ;
    lemma_span_monotone_in_supply(s1 as int, s2 as int, q);
    lemma_mul_le(
        curvature_bps as int,
        curvature_span(s1 as int, q),
        curvature_span(s2 as int, q),
    );
    lemma_div_is_ordered(
        curvature_bps * curvature_span(s1 as int, q),
        curvature_bps * curvature_span(s2 as int, q),
        1_000_000_000,
    );
}

/// A purchase from a larger supply costs strictly more exactly when a
/// supply-dependent term rises: the per-unit slope price
/// `slope_bps * supply / 10^4`, or the curvature term. (Integer truncation can
/// leave both unchanged for a small step in supply, and then so is the cost.)
pub proof fn lemma_purchase_strictly_increasing_in_supply(
    base_price: u64,
    slope_bps: u64,
    curvature_bps: u64,
    s1: u64,
    s2: u64,
    quantity: u64,
)
    requires
        s1 <= s2,
        purchase_quote(base_price, slope_bps, curvature_bps, s2, quantity) is Some,
        slope_bps * s1 / 10_000 < slope_bps * s2 / 10_000 || curvature_bps * curvature_span(
            s1 as int,
            quantity as int,
        ) / 1_000_000_000 < curvature_bps * curvature_span(s2 as int, quantity as int)
            / 1_000_000_000,
    ensures
        purchase_quote(base_price, slope_bps, curvature_bps, s1, quantity) is Some,
        purchase_quote(base_price, slope_bps, curvature_bps, s1, quantity)->0 < purchase_quote(
            base_price,
            slope_bps,
            curvature_bps,
            s2,
            quantity,
        )->0,
{
    lemma_supply_terms_ordered(base_price, slope_bps, curvature_bps, s1, s2, quantity);
}

/// Selling `quantity` units right after buying them from `supply` pays back
/// exactly what they cost, so before fees a round trip never gains.
pub proof fn lemma_sale_after_purchase_repays_cost(
    base_price: u64,
    slope_bps: u64,
    curvature_bps: u64,
    supply: u64,
    quantity: u64,
)
    requires
        supply + quantity <= u64::MAX,
    ensures
        sale_quote(base_price, slope_bps, curvature_bps, (supply + quantity) as u64, quantity)
            == purchase_quote(base_price, slope_bps, curvature_bps, supply, quantity),
        purchase_quote(base_price, slope_bps, curvature_bps, supply, quantity) is Some
            ==> sale_quote(
            base_price,
            slope_bps,
            curvature_bps,
            (supply + quantity) as u64,
            quantity,
        )->0 <= purchase_quote(base_price, slope_bps, curvature_bps, supply, quantity)->0,
{
}

/// Buying `u64::MAX` units can never be quoted: the sum-of-squares factor
/// alone overflows the 128-bit domain, whatever the curve and the supply.
pub proof fn lemma_max_quantity_purchase_fails(
    base_price: u64,
    slope_bps: u64,
    curvature_bps: u64,
    supply: u64,
)
    ensures
        purchase_quote(base_price, slope_bps, curvature_bps, supply, u64::MAX) is None,
{
    let q = u64::MAX as int;
    assert(q * (q - 1) * (q - 1) > u128::MAX);
    lemma_mul_le(q * (q - 1), q - 1, 2 * supply + q - 1);
}


/// The pricing state of a market: its curve parameters, outstanding supply
/// and cumulative turnover.
#[derive(Clone, Copy, Debug, PartialEq, Eq, Structural)]
pub struct BondingCurve {
    pub market: Address,
    pub base_price: u64,
    pub slope_bps: u64,
    pub curvature_bps: u64,
    pub supply: u64,
    pub volume: u128,
    pub bump: u8,
}

impl BondingCurve {
    /// Cost of buying `quantity` units at the current supply.
    pub fn quote_for_purchase(&self, quantity: u64) -> (r: Option<u64>)
        ensures
            r == purchase_quote(self.base_price, self.slope_bps, self.curvature_bps, self.supply, quantity),
    {
        price_integral_buy(self.base_price, self.slope_bps, self.curvature_bps, self.supply, quantity)
    }

    /// Payout for selling `quantity` units at the current supply.
    pub fn quote_for_sale(&self, quantity: u64) -> (r: Option<u64>)
        ensures
            r == sale_quote(self.base_price, self.slope_bps, self.curvature_bps, self.supply, quantity),
    {
        price_integral_sell(self.base_price, self.slope_bps, self.curvature_bps, self.supply, quantity)
    }
}

} // verus!
