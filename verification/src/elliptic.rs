//! Relaxation schemes for the Laplace equation on a rectangular grid.

pub mod input;
pub mod solver;
