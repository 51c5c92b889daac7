//! An early, single-currency sketch of the monetary value: dollars only.

use vstd::prelude::*;

verus! {

/// A dollar amount. The currency is fixed by the type; only the amount is
/// stored.
#[derive(Debug, PartialEq, Eq, Structural, Clone, Copy)]
pub struct Dollar {
    pub amount: i32,
}

impl Dollar {
    /// Constructs a dollar value holding `amount`.
    pub fn new(amount: i32) -> (d: Dollar)
        ensures
            d.amount == amount,
    {
        Dollar { amount }
    }

    /// Scales the amount by `multiplier`; the receiver is not changed.
    pub fn times(&self, multiplier: i32) -> (d: Dollar)
        requires
            i32::MIN <= self.amount * multiplier <= i32::MAX,
        ensures
            d.amount == self.amount * multiplier,
    {
        Dollar::new(self.amount * multiplier)
    }

    /// The stored amount.
    pub fn amount(&self) -> (r: i32)
        ensures
            r == self.amount,
    {
        self.amount
    }
}

} // verus!
