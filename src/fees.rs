//! Splitting a gross amount into basis-point fee buckets.
use crate::market::{fee_config_valid, GlobalState, HyperError};
use vstd::arithmetic::div_mod::lemma_div_is_ordered;
use vstd::prelude::*;

verus! {

/// Basis points in a whole.
pub const BPS_DENOMINATOR: u128 = 10_000;

/// The fee of `bps` basis points on `amount`, rounded down.
pub open spec fn fee_of(amount: u64, bps: u16) -> int {
    (amount as int) * (bps as int) / 10_000
}

/// The three fees charged on a gross amount.
#[derive(Clone, Copy, Debug, PartialEq, Eq, Structural)]
pub struct FeeSplit {
    pub attention_fee: u64,
    pub creator_fee: u64,
    pub treasury_fee: u64,
}

impl FeeSplit {
    /// Sum of the three fees.
    pub open spec fn total_spec(&self) -> int {
        self.attention_fee + self.creator_fee + self.treasury_fee
    }

    /// The split of `amount` under the rates `(attention_bps, creator_bps,
    /// treasury_bps)`.
    pub open spec fn of(amount: u64, attention_bps: u16, creator_bps: u16, treasury_bps: u16) -> FeeSplit {
        FeeSplit {
            attention_fee: fee_of(amount, attention_bps) as u64,
            creator_fee: fee_of(amount, creator_bps) as u64,
            treasury_fee: fee_of(amount, treasury_bps) as u64,
        }
    }

    /// The split of `amount` under the rates of `global`.
    pub open spec fn of_global(amount: u64, global: GlobalState) -> FeeSplit {
        FeeSplit::of(amount, global.attention_fee_bps, global.creator_fee_bps, global.treasury_fee_bps)
    }

    /// Each fee of the split of `amount` under the rates of `global` fits in
    /// 64 bits (always so when the rates are valid).
    pub open spec fn fits(amount: u64, global: GlobalState) -> bool {
        &&& fee_of(amount, global.attention_fee_bps) <= u64::MAX
        &&& fee_of(amount, global.creator_fee_bps) <= u64::MAX
        &&& fee_of(amount, global.treasury_fee_bps) <= u64::MAX
    }

    /// Splits `amount` under the fee rates of `global`. Each fee is computed in
    /// the 128-bit domain, where the product cannot overflow, and narrowed to
    /// 64 bits; `MathOverflow` when a fee does not fit.
    pub fn new(amount: u64, global: &GlobalState) -> (r: Result<FeeSplit, HyperError>)
        ensures
            FeeSplit::fits(amount, *global) ==> r == Ok::<FeeSplit, HyperError>(FeeSplit::of_global(amount, *global)),
            !FeeSplit::fits(amount, *global) ==> r == Err::<FeeSplit, HyperError>(HyperError::MathOverflow),
    {
        let attention_fee = match fee_for(amount, global.attention_fee_bps) {
            Some(f) => f,
            None => return Err(HyperError::MathOverflow),
        };
        let creator_fee = match fee_for(amount, global.creator_fee_bps) {
            Some(f) => f,
            None => return Err(HyperError::MathOverflow),
        };
        let treasury_fee = match fee_for(amount, global.treasury_fee_bps) {
            Some(f) => f,
            None => return Err(HyperError::MathOverflow),
        };
        Ok(FeeSplit { attention_fee, creator_fee, treasury_fee })
    }

    /// Sum of the three fees.
    pub fn total(&self) -> (r: u64)
        requires
            self.total_spec() <= u64::MAX,
        ensures
            r == self.total_spec(),
    {
        self.attention_fee + self.creator_fee + self.treasury_fee
    }
}

/// `amount * bps / 10^4`, computed in the 128-bit domain; `None` when it does
/// not fit in 64 bits.
fn fee_for(amount: u64, bps: u16) -> (r: Option<u64>)
    ensures
        fee_of(amount, bps) <= u64::MAX ==> r == Some(fee_of(amount, bps) as u64),
        fee_of(amount, bps) > u64::MAX ==> r is None,
{
    proof {
        lemma_fee_bounds(amount, bps);
    }
    let product: u128 = (amount as u128) * (bps as u128);
    let fee: u128 = product / BPS_DENOMINATOR;
    if fee > u64::MAX as u128 {
        None
    } else {
        Some(fee as u64)
    }
}

proof fn lemma_fee_bounds(amount: u64, bps: u16)
    ensures
        0 <= (amount as int) * (bps as int) <= (u64::MAX as int) * (u16::MAX as int),
        0 <= fee_of(amount, bps),
        bps <= 10_000 ==> fee_of(amount, bps) <= amount,
{
    assert(0 <= (amount as int) * (bps as int) <= (u64::MAX as int) * (u16::MAX as int)) by (nonlinear_arith);
    if bps <= 10_000 {
        assert((amount as int) * (bps as int) <= (amount as int) * 10_000) by (nonlinear_arith)
            requires
                bps <= 10_000,
        ;
        lemma_div_is_ordered((amount as int) * (bps as int), (amount as int) * 10_000, 10_000);
    }
}

/// Under rates that sum to at most a whole, the fees of a split together never
/// exceed the amount split.
pub proof fn lemma_split_total_within_amount(amount: u64, attention_bps: u16, creator_bps: u16, treasury_bps: u16)
    requires
        attention_bps + creator_bps + treasury_bps <= 10_000,
    ensures
        FeeSplit::of(amount, attention_bps, creator_bps, treasury_bps).total_spec() <= amount,
        FeeSplit::of(amount, attention_bps, creator_bps, treasury_bps).attention_fee == fee_of(amount, attention_bps),
        FeeSplit::of(amount, attention_bps, creator_bps, treasury_bps).creator_fee == fee_of(amount, creator_bps),
        FeeSplit::of(amount, attention_bps, creator_bps, treasury_bps).treasury_fee == fee_of(amount, treasury_bps),
{
    let x = amount as int;
    let a = attention_bps as int;
    let b = creator_bps as int;
    let c = treasury_bps as int;
    lemma_fee_bounds(amount, attention_bps);
    lemma_fee_bounds(amount, creator_bps);
    lemma_fee_bounds(amount, treasury_bps);
    assert(x * a / 10_000 + x * b / 10_000 + x * c / 10_000 <= x) by (nonlinear_arith)
        requires
            0 <= x,
            0 <= a,
            0 <= b,
            0 <= c,
            a + b + c <= 10_000,
    {
        assert(x * a / 10_000 * 10_000 <= x * a);
        assert(x * b / 10_000 * 10_000 <= x * b);
        assert(x * c / 10_000 * 10_000 <= x * c);
        assert(x * a + x * b + x * c <= x * 10_000);
    }
}

/// The split under a valid configuration leaves fees that sum to at most the
/// amount.
pub proof fn lemma_valid_config_split_within_amount(amount: u64, global: GlobalState)
    requires
        fee_config_valid(global.attention_fee_bps, global.creator_fee_bps, global.treasury_fee_bps),
    ensures
        FeeSplit::fits(amount, global),
        FeeSplit::of_global(amount, global).total_spec() <= amount,
{
    lemma_split_total_within_amount(amount, global.attention_fee_bps, global.creator_fee_bps, global.treasury_fee_bps);
}

} // verus!
