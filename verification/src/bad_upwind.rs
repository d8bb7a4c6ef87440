//! The transport equation by a one-sided difference, on the right side or on
//! the wrong one.
//!
//! A good answer needs the difference taken on the side the flow comes from
//! ([`upwind_solver::DiffMethod::Backward`] for a positive velocity). The
//! difference on the other side is here too, to show what it leads to.

pub mod input;
pub mod upwind_solver;
