//! An early, single-currency sketch of the monetary value: francs only.

use vstd::prelude::*;

verus! {

/// A franc amount. The currency is fixed by the type; only the amount is
/// stored.
#[derive(Debug, PartialEq, Eq, Structural, Clone, Copy)]
pub struct Franc {
    pub amount: i32,
}

impl Franc {
    /// Constructs a franc value holding `amount`.
    pub fn new(amount: i32) -> (f: Franc)
        ensures
            f.amount == amount,
    {
        Franc { amount }
    }

    /// Scales the amount by `multiplier`; the receiver is not changed.
    pub fn times(&self, multiplier: i32) -> (f: Franc)
        requires
            i32::MIN <= self.amount * multiplier <= i32::MAX,
        ensures
            f.amount == self.amount * multiplier,
    {
        Franc::new(self.amount * multiplier)
    }
}

} // verus!
