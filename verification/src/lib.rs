//! Finite-difference solvers for linear partial differential equations on
//! structured grids: explicit and implicit time-steppers for the 1-D
//! transport and diffusion equations, and relaxation solvers for the 2-D
//! Laplace equation. They are made to compare schemes on one problem: how
//! stable each is, how much it smears, how fast it converges.
//!
//! # Numbers
//!
//! Every number is an IEEE-754 double, carried as its 64-bit pattern (the
//! standard library's `to_bits` and `from_bits` lead in and out). The four
//! operations are rounded to nearest, ties to even, in software, so that the
//! same input gives the same bits on every machine. See [`double`].
//!
//! # What is proved
//!
//! Every function is verified against its contract: no index leaves its
//! array and no counter overflows; every scheme computes each cell by its
//! formula, from the cells the formula names; the boundary cells stay; a
//! time-stepper is completed after exactly its budget of steps; a relaxation
//! solver runs once, and stops at the first sweep that settles or when its
//! budget is used up. Of the tridiagonal solver it is proved besides that its
//! recurrence, carried out without rounding, solves the system.
//!
//! # What is trusted
//!
//! The value of a sum, a difference, a product and a quotient ([`double`]),
//! and what an `ndarray` array holds after it was made, read, written or
//! cloned ([`state`]). The contracts name these results and say nothing of
//! how close a computed solution is to the true one.

pub mod bad_upwind;
pub mod double;
pub mod elliptic;
pub mod error;
pub mod linear_hyperbolic;
pub mod parabolic;
pub mod state;
pub mod stencil;
