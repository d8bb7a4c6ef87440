//! Schemes for the linear transport equation, and the tridiagonal solver that
//! the implicit ones rest on.

pub mod input;
pub mod math;
pub mod solver;
