//! Pricing, fee and settlement logic for outcome-token markets: a quadratic
//! bonding curve for price discovery, a constant-product pool pair for simple
//! binary markets, and the lifecycle state machines built on them.

pub mod address;
pub mod cpmm;
pub mod curve;
pub mod fees;
pub mod market;
pub mod prediction_market;
pub mod simple;
