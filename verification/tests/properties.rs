use money::bank::Bank;
use money::dollar::Dollar;
use money::expr::{Expression, Sum};
use money::franc::Franc;
use money::money::Money;

fn dollar(amount: i32) -> Expression {
    Expression::Money(Money::dollar(amount))
}

fn franc(amount: i32) -> Expression {
    Expression::Money(Money::franc(amount))
}

#[test]
fn money_times_scales_amount_and_keeps_currency() {
    let m = Money::franc(3);
    let scaled = m.times(4);
    assert_eq!(12, scaled.amount());
    assert_eq!("CHF", scaled.currency());
}

#[test]
fn money_times_negative_multiplier() {
    let m = Money::dollar(5);
    let scaled = m.times(-2);
    assert_eq!(Money::dollar(-10), scaled);
}

#[test]
fn reduce_leaf_keeps_amount_for_any_value() {
    let bank = Bank::new();
    assert_eq!(Money::dollar(0), bank.reduce(dollar(0), "USD"));
    assert_eq!(Money::dollar(-7), bank.reduce(dollar(-7), "USD"));
    assert_eq!(
        Money::dollar(i32::MAX),
        bank.reduce(dollar(i32::MAX), "USD")
    );
}

#[test]
fn unknown_pair_defaults_to_rate_one() {
    let bank = Bank::new();
    assert_eq!(1, bank.rate("GBP", "USD"));
    let result = bank.reduce(Expression::Money(Money::new(7, "GBP")), "USD");
    assert_eq!(Money::dollar(7), result);
}

#[test]
fn inverse_rate_is_not_derived() {
    let mut bank = Bank::new();
    bank.add_rate("CHF", "USD", 2);
    assert_eq!(2, bank.rate("CHF", "USD"));
    assert_eq!(1, bank.rate("USD", "CHF"));
}

#[test]
fn later_rate_overwrites_earlier() {
    let mut bank = Bank::new();
    bank.add_rate("CHF", "USD", 2);
    bank.add_rate("CHF", "USD", 3);
    assert_eq!(3, bank.rate("CHF", "USD"));
    assert_eq!(Money::dollar(3), bank.reduce(franc(9), "USD"));
}

#[test]
fn reduction_truncates_toward_zero() {
    let mut bank = Bank::new();
    bank.add_rate("CHF", "USD", 2);
    assert_eq!(Money::dollar(2), bank.reduce(franc(5), "USD"));
    assert_eq!(Money::dollar(-2), bank.reduce(franc(-5), "USD"));
}

#[test]
fn amount_sums_leaves_without_conversion() {
    let tree = dollar(5).plus(franc(10));
    assert_eq!(15, tree.amount());
}

#[test]
fn times_distributes_over_sum() {
    let mut bank = Bank::new();
    bank.add_rate("CHF", "USD", 2);
    let scaled_sum = dollar(5).plus(franc(10)).times(3);
    let sum_of_scaled = dollar(5).times(3).plus(franc(10).times(3));
    assert_eq!(
        bank.reduce(scaled_sum, "USD"),
        bank.reduce(sum_of_scaled, "USD")
    );
}

#[test]
fn reduction_is_associative_over_grouping() {
    let mut bank = Bank::new();
    bank.add_rate("CHF", "USD", 2);
    let left = dollar(1).plus(franc(2)).plus(dollar(3));
    let right = dollar(1).plus(franc(2).plus(dollar(3)));
    assert_eq!(bank.reduce(left, "USD"), bank.reduce(right, "USD"));
    assert_eq!(Money::dollar(5), bank.reduce(dollar(1).plus(franc(2)).plus(dollar(3)), "USD"));
}

#[test]
fn dollar_sketch_times() {
    let five = Dollar::new(5);
    assert_eq!(Dollar::new(10), five.times(2));
    assert_eq!(5, five.amount());
}

#[test]
fn franc_sketch_times() {
    let five = Franc::new(5);
    assert_eq!(Franc::new(10), five.times(2));
    assert_eq!(Franc::new(-15), five.times(-3));
}

#[test]
fn expression_equality_is_structural() {
    let a = dollar(5).plus(franc(10));
    let b = dollar(5).plus(franc(10));
    assert_eq!(a, b);
    assert_ne!(a, dollar(5).plus(franc(11)));
    assert_ne!(a, franc(10).plus(dollar(5)));
    assert_ne!(a, dollar(5));
}
