//! Laws of the evaluator, each stated and proved once for all inputs.

use vstd::prelude::*;

use crate::bank::Bank;
use crate::expr::{
    div_trunc, fits_amount, reduce_val, reducible, spec_times, sum_of, times_ok, Expression,
};
use crate::money::Money;

verus! {

/// Reducing the sum of two expressions is well defined exactly when each
/// addend reduces on its own and the two converted amounts fit the amount
/// representation; the reduction is then one monetary value holding the sum
/// of the two separate reductions.
pub proof fn lemma_reduce_sum(a: Expression, b: Expression, bank: Bank, to: Seq<char>)
    ensures
        reducible(sum_of(a, b), bank, to) <==> (reducible(a, bank, to) && reducible(b, bank, to)
            && fits_amount(reduce_val(a, bank, to) + reduce_val(b, bank, to))),
        reduce_val(sum_of(a, b), bank, to) == reduce_val(a, bank, to) + reduce_val(b, bank, to),
{
}

/// A single leaf reduced into a currency that the bank converts at rate `1`
/// — in particular its own currency, when no rate was added for that pair —
/// comes back unchanged: same amount, target currency.
pub proof fn lemma_reduce_leaf_identity(m: Money, bank: Bank, to: Seq<char>)
    requires
        bank.spec_rate(m.currency@, to) == 1,
    ensures
        reducible(Expression::Money(m), bank, to),
        reduce_val(Expression::Money(m), bank, to) == m.amount,
{
    let x = m.amount as int;
    assert(div_trunc(x, 1) == x) by {
        if x > 0 {
            assert(x / 1 == x);
        } else if x < 0 {
            assert((x * -1) / 1 == x * -1);
        }
    }
}

/// Multiplication distributes over addition: scaling a sum scales each
/// addend and yields the very same tree as adding the scaled addends. Hence
/// the two reduce to the same value under every bank and target currency,
/// and scaling one side stays within the amount representation exactly when
/// scaling the other does.
pub proof fn lemma_times_distributes(
    a: Expression,
    b: Expression,
    k: int,
    bank: Bank,
    to: Seq<char>,
)
    ensures
        spec_times(sum_of(a, b), k) == sum_of(spec_times(a, k), spec_times(b, k)),
        times_ok(sum_of(a, b), k) <==> times_ok(a, k) && times_ok(b, k),
        reduce_val(spec_times(sum_of(a, b), k), bank, to) == reduce_val(
            sum_of(spec_times(a, k), spec_times(b, k)),
            bank,
            to,
        ),
{
}

/// Reduction respects the associativity of the underlying integer sum:
/// three expressions grouped to the left reduce to the same value as the
/// same three grouped to the right, under every bank and target currency.
pub proof fn lemma_reduce_associative(
    a: Expression,
    b: Expression,
    c: Expression,
    bank: Bank,
    to: Seq<char>,
)
    ensures
        reduce_val(sum_of(sum_of(a, b), c), bank, to) == reduce_val(
            sum_of(a, sum_of(b, c)),
            bank,
            to,
        ),
{
    lemma_reduce_sum(sum_of(a, b), c, bank, to);
    lemma_reduce_sum(a, b, bank, to);
    lemma_reduce_sum(a, sum_of(b, c), bank, to);
    lemma_reduce_sum(b, c, bank, to);
}

} // verus!
