//! Fixed-width unsigned-integer expressions of a typed intermediate
//! representation that is lowered to arithmetic-circuit constraints.
//!
//! The crate holds the node algebra ([`uint::UExpression`]), its width-checked
//! constructors, the coercion of untyped integer-literal trees into
//! fixed-width form, and the bit-length helper used by bound propagation.

pub mod absy;
pub mod bits;
pub mod coercion;
pub mod natural;
pub mod types;
pub mod uint;
