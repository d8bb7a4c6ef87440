//! Schemes for the diffusion equation.

pub mod input;
pub mod solver;
