//! Fallible values and the rules by which they compose.
//!
//! - `outcome`: the success-or-failure container and its combinators.
//! - `laws`: what holds of the combinators, whatever they are given.
//! - `cause`, `error_kind`, `erased`: lower-level error records, the
//!   taxonomy that wraps them, and the failure with its kind hidden.
//! - `decimal`, `text`: reading a decimal integer, and stripping the white
//!   space around it.
//! - `number`: numbers read from text, failing by the taxonomy.

pub mod cause;
pub mod decimal;
pub mod erased;
pub mod error_kind;
pub mod laws;
pub mod number;
pub mod outcome;
pub mod text;
