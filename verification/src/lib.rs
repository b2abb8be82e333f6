//! Incremental evaluation of quantified regular expressions over a data
//! stream.  A query is built once from a small combinator algebra; items are
//! then fed one at a time, and the engine answers value queries without ever
//! rescanning history.  The two symbolic operators at the heart of the
//! engine are the acceptance-value operator (`epsilon`) and the derivative
//! operator (`deriv`); a small solver drives them across the stream.

pub mod ops;
pub mod expr;
pub mod engine;
pub mod solve;
pub mod laws;
