//! Time-steppers for the diffusion equation. They are solvers in the sense
//! of [`crate::linear_hyperbolic::solver::Solver`].

pub mod beamwarming_solver;
pub mod ftcs_solver;

pub use crate::linear_hyperbolic::solver::NewParams;
pub use crate::linear_hyperbolic::solver::Solver;
