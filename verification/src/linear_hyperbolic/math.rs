//! Linear algebra for the implicit schemes.

pub mod round_trip;
pub mod trinomial_eq;
