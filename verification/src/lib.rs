//! Norwegian tax computation engine.
//!
//! The engine maps one immutable input record and an entity-type selector to a
//! result record with aggregate totals and an ordered line-item breakdown. It
//! covers four legal entity types, progressive state-tax brackets, investment
//! and dividend taxation with a risk-free allowance, and a wealth tax with a
//! valuation rebate.
//!
//! All arithmetic is exact fixed-point arithmetic on 64-bit integers: monetary
//! amounts are counts of 1/100 krone and rates are counts of 1/100 percent, so
//! every rate application is `amount * rate / 10_000`, truncated toward zero.
//! The functional model of the whole computation lives in [`model`], and every
//! executable function is proved to return exactly what the model says.

pub mod arith;
pub mod currency;
pub mod laws;
pub mod model;
pub mod tax_calculator;
