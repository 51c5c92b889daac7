//! The exchange-rate table and its lookup.

use vstd::prelude::*;

use crate::expr::{reduce_val, reducible, Expression};
use crate::money::str_eq;
use crate::money::Money;

verus! {

/// An ordered currency pair, the key of the rate table. `(from, to)` and
/// `(to, from)` are distinct keys, stored independently.
#[derive(Debug, Clone, Copy)]
pub struct Pair {
    pub from: &'static str,
    pub to: &'static str,
}

impl Pair {
    /// Constructs a key; the fields are stored as given.
    pub fn new(from: &'static str, to: &'static str) -> (p: Pair)
        ensures
            p == (Pair { from, to }),
    {
        Pair { from, to }
    }
}

/// The rate stored by the latest entry for `(from, to)`, or `1` when no entry
/// matches. Later entries shadow earlier ones: last write wins.
spec fn rate_in(entries: Seq<(Pair, i32)>, from: Seq<char>, to: Seq<char>) -> int
    decreases entries.len(),
{
    if entries.len() == 0 {
        1
    } else {
        let entry = entries.last();
        if entry.0.from@ == from && entry.0.to@ == to {
            entry.1 as int
        } else {
            rate_in(entries.drop_last(), from, to)
        }
    }
}

/// An exchange-rate repository: a table of integer rates keyed by ordered
/// currency pairs. Only [`Bank::add_rate`] changes it; lookups never do.
pub struct Bank {
    rates: Vec<(Pair, i32)>,
}

impl Bank {
    /// The rate the table holds for converting `from` into `to`: the rate of
    /// the latest `add_rate(from, to, ..)` call, or `1` when the pair was
    /// never added — which covers both the identity pair and any untracked
    /// cross-currency pair.
    pub closed spec fn spec_rate(self, from: Seq<char>, to: Seq<char>) -> int {
        rate_in(self.rates@, from, to)
    }

    /// An empty rate table: every pair converts at rate `1`.
    pub fn new() -> (bank: Bank)
        ensures
            forall|from: Seq<char>, to: Seq<char>| #[trigger] bank.spec_rate(from, to) == 1,
    {
        Bank { rates: Vec::new() }
    }

    /// Inserts or overwrites the rate for the ordered pair `(from, to)`;
    /// every other pair keeps its rate. The inverse pair is not derived.
    pub fn add_rate(&mut self, from: &'static str, to: &'static str, rate: i32)
        ensures
            final(self).spec_rate(from@, to@) == rate as int,
            forall|f: Seq<char>, t: Seq<char>|
                !(f == from@ && t == to@) ==> #[trigger] final(self).spec_rate(f, t)
                    == old(self).spec_rate(f, t),
    {
        let ghost before = self.rates@;
        self.rates.push((Pair::new(from, to), rate));
        proof {
            assert(self.rates@.drop_last() =~= before);
        }
    }

    /// Reduces `source` to one monetary value in the currency `to`, reading
    /// rates from this table: pure delegation to the expression's own
    /// reduction. The table is not changed.
    pub fn reduce(&self, source: Expression, to: &'static str) -> (m: Money)
        requires
            reducible(source, *self, to@),
        ensures
            m.amount == reduce_val(source, *self, to@),
            m.currency == to,
    {
        source.reduce(self, to)
    }

    /// The stored rate for `(from, to)`, or `1` when the pair is absent.
    pub fn rate(&self, from: &'static str, to: &'static str) -> (r: i32)
        ensures
            r as int == self.spec_rate(from@, to@),
    {
        let mut r: i32 = 1;
        let mut i: usize = 0;
        while i < self.rates.len()
            invariant
                i <= self.rates.len(),
                r as int == rate_in(self.rates@.take(i as int), from@, to@),
            decreases self.rates.len() - i,
        {
            let entry = &self.rates[i];
            if str_eq(entry.0.from, from) && str_eq(entry.0.to, to) {
                r = entry.1;
            }
            proof {
                assert(self.rates@.take(i + 1).drop_last() =~= self.rates@.take(i as int));
                assert(self.rates@.take(i + 1).last() == self.rates@[i as int]);
            }
            i = i + 1;
        }
        proof {
            assert(self.rates@.take(self.rates.len() as int) =~= self.rates@);
        }
        r
    }
}

} // verus!
