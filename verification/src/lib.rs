//! Checked arithmetic behind the ordinary operators.
//!
//! A [`Checker`] holds a number, or the fact that an earlier operation on it
//! had no representable result. `+`, `-`, `*` and `/` on a `Checker` never
//! panic and never wrap around: an operation whose exact result does not fit
//! the number's type, or a division by zero, gives the absent state, and the
//! absent state stays absent through whatever is computed from it.
pub mod integer;
pub mod unsigned;
pub mod signed;
pub mod checker;
pub mod arith;
pub mod laws;

pub use checker::Checker;
pub use integer::{CheckedAdd, CheckedDiv, CheckedMul, CheckedSub, Integer};
