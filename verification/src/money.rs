//! The monetary leaf value: an integer amount in a currency.

use vstd::prelude::*;

use crate::expr::{sum_of, Expression};

verus! {

/// Compares two currency tokens character by character.
///
/// Relies on `str`'s `PartialEq`: two string slices are equal exactly when
/// they hold the same sequence of characters.
#[verifier::external_body]
pub(crate) fn str_eq(a: &str, b: &str) -> (r: bool)
    ensures
        r == (a@ == b@),
{
    a == b
}

/// An immutable monetary value: an integer amount in a currency.
///
/// Currency identifiers are opaque tokens (for example `"USD"` or `"CHF"`):
/// any string is accepted, nothing is validated. Two values are equal exactly
/// when the amounts match and the currency tokens hold the same characters.
#[derive(Debug, Clone, Copy)]
pub struct Money {
    pub amount: i32,
    pub currency: &'static str,
}

/// Structural equality on monetary values: equal amounts and equal currency
/// characters.
pub open spec fn money_eq(a: Money, b: Money) -> bool {
    a.amount == b.amount && a.currency@ == b.currency@
}

impl Money {
    /// Constructs a value; the fields are stored as given.
    pub fn new(amount: i32, currency: &'static str) -> (m: Money)
        ensures
            m == (Money { amount, currency }),
    {
        Money { amount, currency }
    }

    /// The stored amount.
    pub fn amount(&self) -> (r: i32)
        ensures
            r == self.amount,
    {
        self.amount
    }

    /// The currency token.
    pub fn currency(&self) -> (r: &'static str)
        ensures
            r == self.currency,
    {
        self.currency
    }

    /// Scales the amount by `multiplier`; the currency is kept.
    pub fn times(&self, multiplier: i32) -> (m: Money)
        requires
            i32::MIN <= self.amount * multiplier <= i32::MAX,
        ensures
            m.amount == self.amount * multiplier,
            m.currency == self.currency,
    {
        Money { amount: self.amount * multiplier, currency: self.currency }
    }

    /// Adds two monetary values as expressions: a fresh `Sum` node holding
    /// one leaf for each operand. Nothing is converted or collapsed, even
    /// when the currencies agree.
    pub fn plus(self, other: Money) -> (e: Expression)
        ensures
            e == sum_of(Expression::Money(self), Expression::Money(other)),
    {
        Expression::Money(self).plus(Expression::Money(other))
    }

    /// A value in the currency `"USD"`.
    pub fn dollar(amount: i32) -> (m: Money)
        ensures
            m == (Money { amount, currency: "USD" }),
    {
        Money::new(amount, "USD")
    }

    /// A value in the currency `"CHF"`.
    pub fn franc(amount: i32) -> (m: Money)
        ensures
            m == (Money { amount, currency: "CHF" }),
    {
        Money::new(amount, "CHF")
    }
}

impl PartialEq for Money {
    fn eq(&self, other: &Money) -> (r: bool) {
        self.amount == other.amount && str_eq(self.currency, other.currency)
    }
}

impl vstd::std_specs::cmp::PartialEqSpecImpl for Money {
    open spec fn obeys_eq_spec() -> bool {
        true
    }

    open spec fn eq_spec(&self, other: &Money) -> bool {
        money_eq(*self, *other)
    }
}

} // verus!
