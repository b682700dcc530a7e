//! Identities of accounts, mints and signers.
use vstd::prelude::*;

verus! {

/// A 32-byte account identity, held as its low and high 16 bytes read as
/// little-endian integers. Two identities are equal when all their bytes are.
#[derive(Clone, Copy, Debug, PartialEq, Eq, Structural)]
pub struct Address {
    pub low: u128,
    pub high: u128,
}

impl Address {
    /// The all-zero identity, which marks a slot that nobody has claimed yet.
    pub fn zero() -> (r: Address)
        ensures
            r == Address::zero_spec(),
    {
        Address { low: 0, high: 0 }
    }

    pub open spec fn zero_spec() -> Address {
        Address { low: 0, high: 0 }
    }
}

} // verus!
