//! A small currency arithmetic library.
//!
//! An expression tree of monetary values ([`money::Money`]) and binary sums
//! ([`expr::Sum`]) is reduced to a single value in a target currency by a
//! [`bank::Bank`] that keeps a table of exchange rates.

pub mod bank;
pub mod dollar;
pub mod expr;
pub mod fib;
pub mod franc;
pub mod laws;
pub mod money;
