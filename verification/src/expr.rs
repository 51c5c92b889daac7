//! The expression tree and its reduction to a single monetary value.

use vstd::prelude::*;

use crate::bank::Bank;
use crate::money::{money_eq, Money};

verus! {

/// A currency expression: either a monetary leaf value or the sum of two
/// sub-expressions. Every operation is a case analysis over these two
/// variants.
#[derive(Debug)]
pub enum Expression {
    Money(Money),
    Sum(Sum),
}

/// A binary composite node owning its two addends. Nesting sums models
/// multi-term additions built by repeated binary addition; the tree is
/// strictly owned, with no sharing and no cycles.
#[derive(Debug)]
pub struct Sum {
    pub augend: Box<Expression>,
    pub addend: Box<Expression>,
}

/// The expression that adds `augend` and `addend`: always a fresh `Sum` node,
/// never a collapsed leaf, so that the tree stays open to later inspection
/// and multiplication.
pub open spec fn sum_of(augend: Expression, addend: Expression) -> Expression {
    Expression::Sum(Sum { augend: Box::new(augend), addend: Box::new(addend) })
}

/// Structural equality on expressions: the same shape, with equal leaves.
pub open spec fn expr_eq(a: Expression, b: Expression) -> bool
    decreases a,
{
    match (a, b) {
        (Expression::Money(m), Expression::Money(n)) => money_eq(m, n),
        (Expression::Sum(s), Expression::Sum(t)) => expr_eq(*s.augend, *t.augend) && expr_eq(
            *s.addend,
            *t.addend,
        ),
        _ => false,
    }
}

/// The sum of all leaf amounts, taken without any currency conversion.
/// Meaningful on its own only when every leaf shares one currency.
pub open spec fn amount_of(e: Expression) -> int
    decreases e,
{
    match e {
        Expression::Money(m) => m.amount as int,
        Expression::Sum(s) => amount_of(*s.augend) + amount_of(*s.addend),
    }
}

/// Whether a value fits the machine representation of an amount.
pub open spec fn fits_amount(x: int) -> bool {
    i32::MIN <= x <= i32::MAX
}

/// Whether every partial sum met while adding up the raw leaf amounts of `e`
/// fits the amount representation.
pub open spec fn amount_ok(e: Expression) -> bool
    decreases e,
{
    match e {
        Expression::Money(_) => true,
        Expression::Sum(s) => amount_ok(*s.augend) && amount_ok(*s.addend) && fits_amount(
            amount_of(*s.augend) + amount_of(*s.addend),
        ),
    }
}

/// Integer division truncating toward zero, the behaviour of the machine
/// division that reduction performs. It differs from the Euclidean `/` of
/// specifications only when exactly one operand is negative.
pub open spec fn div_trunc(x: int, d: int) -> int
    recommends
        d != 0,
{
    if x == 0 {
        0
    } else if x > 0 && d > 0 {
        x / d
    } else if x < 0 && d < 0 {
        (x * -1) / (d * -1)
    } else if x < 0 {
        ((x * -1) / d) * -1
    } else {
        (x / (d * -1)) * -1
    }
}

/// The expression `e` with every leaf amount scaled by `k`: the tree shape
/// and every currency are kept, only the leaf amounts change.
pub open spec fn spec_times(e: Expression, k: int) -> Expression
    decreases e,
{
    match e {
        Expression::Money(m) => Expression::Money(
            Money { amount: (m.amount * k) as i32, currency: m.currency },
        ),
        Expression::Sum(s) => sum_of(spec_times(*s.augend, k), spec_times(*s.addend, k)),
    }
}

/// Whether every leaf amount of `e`, scaled by `k`, still fits the amount
/// representation.
pub open spec fn times_ok(e: Expression, k: int) -> bool
    decreases e,
{
    match e {
        Expression::Money(m) => fits_amount(m.amount * k),
        Expression::Sum(s) => times_ok(*s.augend, k) && times_ok(*s.addend, k),
    }
}

/// The amount of `e` reduced into the currency `to` under `bank`: each leaf
/// is first converted on its own — its amount divided, truncating, by the
/// bank's rate from its currency to `to` — and only then are the converted
/// amounts summed.
pub open spec fn reduce_val(e: Expression, bank: Bank, to: Seq<char>) -> int
    decreases e,
{
    match e {
        Expression::Money(m) => div_trunc(m.amount as int, bank.spec_rate(m.currency@, to)),
        Expression::Sum(s) => reduce_val(*s.augend, bank, to) + reduce_val(*s.addend, bank, to),
    }
}

/// Whether reducing `e` into `to` under `bank` is well defined on the
/// machine: no leaf meets a zero rate or a division that leaves the amount
/// representation, and every intermediate sum of converted amounts fits it.
pub open spec fn reducible(e: Expression, bank: Bank, to: Seq<char>) -> bool
    decreases e,
{
    match e {
        Expression::Money(m) => bank.spec_rate(m.currency@, to) != 0 && fits_amount(
            div_trunc(m.amount as int, bank.spec_rate(m.currency@, to)),
        ),
        Expression::Sum(s) => reducible(*s.augend, bank, to) && reducible(*s.addend, bank, to)
            && fits_amount(reduce_val(*s.augend, bank, to) + reduce_val(*s.addend, bank, to)),
    }
}

impl Sum {
    /// Builds the node that owns the two addends.
    pub fn new(augend: Expression, addend: Expression) -> (s: Sum)
        ensures
            *s.augend == augend,
            *s.addend == addend,
    {
        Sum { augend: Box::new(augend), addend: Box::new(addend) }
    }
}

impl Expression {
    /// Adds two expressions: always a fresh `Sum` node wrapping both
    /// operands, never a collapsed leaf.
    pub fn plus(self, other: Expression) -> (e: Expression)
        ensures
            e == sum_of(self, other),
    {
        Expression::Sum(Sum::new(self, other))
    }

    /// The sum of all leaf amounts, computed without currency conversion.
    pub fn amount(&self) -> (r: i32)
        requires
            amount_ok(*self),
        ensures
            r == amount_of(*self),
        decreases self,
    {
        match self {
            Expression::Money(m) => m.amount,
            Expression::Sum(s) => s.augend.amount() + s.addend.amount(),
        }
    }

    /// Scales every leaf amount by `multiplier`, keeping the tree shape and
    /// the currencies.
    pub fn times(&self, multiplier: i32) -> (e: Expression)
        requires
            times_ok(*self, multiplier as int),
        ensures
            e == spec_times(*self, multiplier as int),
        decreases self,
    {
        match self {
            Expression::Money(m) => Expression::Money(
                Money::new(m.amount * multiplier, m.currency),
            ),
            Expression::Sum(s) => Expression::Sum(
                Sum::new(s.augend.times(multiplier), s.addend.times(multiplier)),
            ),
        }
    }

    /// Reduces the expression to one monetary value in the currency `to`:
    /// each leaf is converted on its own by truncating division through the
    /// bank's rate, then the converted amounts are folded upward.
    pub fn reduce(&self, bank: &Bank, to: &'static str) -> (m: Money)
        requires
            reducible(*self, *bank, to@),
        ensures
            m.amount == reduce_val(*self, *bank, to@),
            m.currency == to,
        decreases self,
    {
        match self {
            Expression::Money(money) => {
                let rate = bank.rate(money.currency(), to);
                let amount = money.amount().checked_div(rate).unwrap();
                Money::new(amount, to)
            },
            Expression::Sum(s) => {
                let left = s.augend.reduce(bank, to);
                let right = s.addend.reduce(bank, to);
                Money::new(left.amount() + right.amount(), to)
            },
        }
    }
}

impl Clone for Expression {
    /// A deep copy, equal to the receiver.
    fn clone(&self) -> (r: Expression)
        ensures
            r == *self,
        decreases self,
    {
        match self {
            Expression::Money(m) => Expression::Money(*m),
            Expression::Sum(s) => Expression::Sum(s.clone()),
        }
    }
}

impl Clone for Sum {
    /// A deep copy, equal to the receiver.
    fn clone(&self) -> (r: Sum)
        ensures
            r == *self,
        decreases self,
    {
        Sum { augend: Box::new((*self.augend).clone()), addend: Box::new((*self.addend).clone()) }
    }
}

impl PartialEq for Expression {
    fn eq(&self, other: &Expression) -> (r: bool)
        decreases self,
    {
        match (self, other) {
            (Expression::Money(m), Expression::Money(n)) => m == n,
            (Expression::Sum(s), Expression::Sum(t)) => *s.augend == *t.augend && *s.addend
                == *t.addend,
            _ => false,
        }
    }
}

impl vstd::std_specs::cmp::PartialEqSpecImpl for Expression {
    open spec fn obeys_eq_spec() -> bool {
        true
    }

    open spec fn eq_spec(&self, other: &Expression) -> bool {
        expr_eq(*self, *other)
    }
}

} // verus!
