//! A non-negative fixed-point amount of money.
//!
//! An [`Amount`] stores a balance as an unsigned integer count of fractional
//! units, with [`AMOUNT_SCALE`] units per whole currency unit. The scale gives
//! fourteen fractional bits, enough to resolve four decimal digits. Negative
//! values are not representable; the only subtraction offered is a checked one
//! that signals shortfall instead of underflowing.

use vstd::prelude::*;

verus! {

/// Number of fractional units per whole currency unit.
pub const AMOUNT_SCALE: u64 = 16384;

/// A non-negative fixed-point amount of money.
///
/// The mathematical view of an amount is its raw count of fractional units,
/// an integer in `[0, u64::MAX]`.
#[derive(Clone, Copy, Debug, PartialEq, Eq, Structural)]
pub struct Amount {
    raw: u64,
}

impl View for Amount {
    type V = int;

    closed spec fn view(&self) -> int {
        self.raw as int
    }
}

/// Every amount's view lies in the range of its raw representation.
pub broadcast proof fn lemma_amount_view_range(a: Amount)
    ensures
        0 <= #[trigger] a@ <= u64::MAX,
{
}

impl Amount {
    /// Builds an amount from a raw count of fractional units.
    pub fn from_raw(raw: u64) -> (r: Amount)
        ensures
            r@ == raw,
    {
        Amount { raw }
    }

    /// Builds an amount from a whole number of currency units.
    pub fn from_num(n: u64) -> (r: Amount)
        requires
            n * AMOUNT_SCALE <= u64::MAX,
        ensures
            r@ == n * AMOUNT_SCALE,
    {
        Amount { raw: n * AMOUNT_SCALE }
    }

    /// The raw count of fractional units.
    pub fn raw(&self) -> (r: u64)
        ensures
            r == self@,
    {
        self.raw
    }

    /// Adds two amounts exactly; the sum must fit the representation.
    pub fn add(self, other: Amount) -> (r: Amount)
        requires
            self@ + other@ <= u64::MAX,
        ensures
            r@ == self@ + other@,
    {
        Amount { raw: self.raw + other.raw }
    }

    /// Subtracts `other` from `self`, or reports shortfall.
    ///
    /// Returns `None` exactly when `other` exceeds `self`; an amount can never
    /// go negative.
    pub fn checked_sub(self, other: Amount) -> (r: Option<Amount>)
        ensures
            other@ <= self@ ==> (r matches Some(d) && d@ == self@ - other@),
            other@ > self@ ==> r is None,
    {
        if other.raw > self.raw {
            None
        } else {
            Some(Amount { raw: self.raw - other.raw })
        }
    }
}

} // verus!
