//! The Beam-Warming scheme for the diffusion equation.
//!
//! With the diffusion number `mu` and the weighting factor `lambda`, a step
//! solves
//!
//! ```text
//! -lambda mu u[j-1]' + (1 + 2 lambda mu) u[j]' - lambda mu u[j+1]'
//!     = (1 - lambda) mu u[j-1] + (1 - 2 (1 - lambda) mu) u[j] + (1 - lambda) mu u[j+1]
//! ```
//!
//! for the new cells `u'`. `lambda = 0` is the explicit Euler scheme,
//! `lambda = 1` the implicit one and `lambda = 0.5` Crank-Nicolson. The two
//! boundary cells are fixed.

use crate::double::{
    fadd, fdiff, fmul, fprod, fsub, fsum, is_le, is_lt, le, lt, neg, negated, ONE, TWO, ZERO,
};
use crate::error::{CompletionError, ValidationError};
use crate::linear_hyperbolic::math::trinomial_eq::{decomposed, solution, TrinomialEq};
use crate::linear_hyperbolic::solver::{NewParams, Solver};
use crate::linear_hyperbolic::solver::beamwarming_solver::{
    assemble_rhs, repeat_row, restore_boundary, rhs, with_boundary_of,
};
use crate::state::{vector_len, StateVector};
use vstd::prelude::*;

verus! {

/// The row that every line of the scheme's matrix repeats.
pub open spec fn mat_row(mu: u64, lambda: u64) -> (u64, u64, u64) {
    let lower = fprod(negated(lambda), mu);
    (lower, fsum(ONE, fprod(fprod(TWO, lambda), mu)), lower)
}

/// The scheme's matrix for `n_dim` cells.
pub open spec fn mat_coef(n_dim: nat, mu: u64, lambda: u64) -> Seq<(u64, u64, u64)> {
    Seq::new(n_dim, |i: int| mat_row(mu, lambda))
}

/// The weights of the left, the middle and the right cell on the right-hand
/// side.
pub open spec fn rhs_row(mu: u64, lambda: u64) -> (u64, u64, u64) {
    let lower = fprod(fdiff(ONE, lambda), mu);
    (lower, fdiff(ONE, fprod(fprod(TWO, fdiff(ONE, lambda)), mu)), lower)
}

/// The cells one step after `u`.
pub open spec fn next_u(u: Seq<u64>, mu: u64, lambda: u64) -> Seq<u64> {
    with_boundary_of(
        solution(decomposed(mat_coef(u.len(), mu, lambda)), rhs(u, rhs_row(mu, lambda))),
        u,
    )
}

/// Solver for the diffusion equation by the Beam-Warming scheme.
#[derive(Debug)]
pub struct BeamwarmingSolver {
    u: StateVector,
    step_max: usize,
    mu: u64,
    lambda: u64,
    trinomial_eq: TrinomialEq,
    step: usize,
    completed: bool,
}

/// Parameters for a new `BeamwarmingSolver`.
#[derive(Debug)]
pub struct BeamwarmingSolverNewParams {
    /// Initial cells.
    pub u: StateVector,
    /// Step budget.
    pub step_max: usize,
    /// Diffusion number.
    pub mu: u64,
    /// Weighting factor.
    pub lambda: u64,
}

impl NewParams for BeamwarmingSolverNewParams {
    open spec fn validity(&self) -> Result<(), ValidationError> {
        if self.u@.len() == 0 {
            Err(ValidationError::EmptyState)
        } else if self.step_max == 0 {
            Err(ValidationError::StepMaxNotPositive)
        } else if !lt(ZERO, self.mu) {
            Err(ValidationError::DiffusionNotPositive)
        } else if !(le(ZERO, self.lambda) && le(self.lambda, ONE)) {
            Err(ValidationError::WeightOutOfRange)
        } else {
            Ok(())
        }
    }

    fn validate_new_params(&self) -> (r: Result<(), ValidationError>) {
        if vector_len(&self.u) == 0 {
            return Err(ValidationError::EmptyState);
        }
        if self.step_max == 0 {
            return Err(ValidationError::StepMaxNotPositive);
        }
        if !is_lt(ZERO, self.mu) {
            return Err(ValidationError::DiffusionNotPositive);
        }
        if !(is_le(ZERO, self.lambda) && is_le(self.lambda, ONE)) {
            return Err(ValidationError::WeightOutOfRange);
        }
        Ok(())
    }
}

impl BeamwarmingSolver {
    /// The diffusion number.
    pub closed spec fn mu(&self) -> u64 {
        self.mu
    }

    /// The weighting factor.
    pub closed spec fn lambda(&self) -> u64 {
        self.lambda
    }

    /// A solver at step zero, or the first check that the parameters fail.
    pub fn new(new_params: BeamwarmingSolverNewParams) -> (r: Result<Self, ValidationError>)
        ensures
            match new_params.validity() {
                Ok(()) => r matches Ok(solver) && {
                    &&& solver.wf()
                    &&& solver.state() == new_params.u@
                    &&& solver.step() == 0
                    &&& !solver.completed()
                    &&& solver.step_max() == new_params.step_max
                    &&& solver.mu() == new_params.mu
                    &&& solver.lambda() == new_params.lambda
                },
                Err(e) => r matches Err(x) && x == e,
            },
    {
        match new_params.validate_new_params() {
            Err(e) => {
                return Err(e);
            },
            Ok(()) => {},
        }
        let u_len: usize = vector_len(&new_params.u);
        Ok(
            BeamwarmingSolver {
                u: new_params.u,
                step_max: new_params.step_max,
                mu: new_params.mu,
                lambda: new_params.lambda,
                trinomial_eq: TrinomialEq::new(
                    Self::create_mat_coef(u_len, new_params.mu, new_params.lambda),
                ),
                step: 0,
                completed: false,
            },
        )
    }

    fn calculate_u_next(&self) -> (u_next: StateVector)
        requires
            self.wf(),
        ensures
            u_next@ == next_u(self.state(), self.mu(), self.lambda()),
    {
        let coef_lower_rhs: u64 = fmul(fsub(ONE, self.lambda), self.mu);
        let coef_diag_rhs: u64 = fsub(ONE, fmul(fmul(TWO, fsub(ONE, self.lambda)), self.mu));
        let coef_upper_rhs: u64 = coef_lower_rhs;

        let mut u_next = assemble_rhs(&self.u, (coef_lower_rhs, coef_diag_rhs, coef_upper_rhs));
        let solved = self.trinomial_eq.solve(&mut u_next);
        assert(solved is Ok);
        restore_boundary(&mut u_next, &self.u);
        u_next
    }

    fn create_mat_coef(n_dim: usize, mu: u64, lambda: u64) -> (rows: Vec<(u64, u64, u64)>)
        ensures
            rows@ == mat_coef(n_dim as nat, mu, lambda),
    {
        let coef_lower: u64 = fmul(neg(lambda), mu);
        let coef_diag: u64 = fadd(ONE, fmul(fmul(TWO, lambda), mu));
        let coef_upper: u64 = coef_lower;

        repeat_row(n_dim, (coef_lower, coef_diag, coef_upper))
    }
}

impl Solver for BeamwarmingSolver {
    closed spec fn wf(&self) -> bool {
        &&& self.u@.len() > 0
        &&& self.step_max > 0
        &&& self.step <= self.step_max
        &&& self.completed == (self.step >= self.step_max)
        &&& self.trinomial_eq.wf()
        &&& self.trinomial_eq@ == decomposed(mat_coef(self.u@.len(), self.mu, self.lambda))
    }

    closed spec fn state(&self) -> Seq<u64> {
        self.u@
    }

    closed spec fn step(&self) -> nat {
        self.step as nat
    }

    closed spec fn step_max(&self) -> nat {
        self.step_max as nat
    }

    closed spec fn completed(&self) -> bool {
        self.completed
    }

    open spec fn steps_to(&self, after: &Self) -> bool {
        &&& !self.completed()
        &&& after.wf()
        &&& after.state() == next_u(self.state(), self.mu(), self.lambda())
        &&& after.step() == self.step() + 1
        &&& after.step_max() == self.step_max()
        &&& after.mu() == self.mu()
        &&& after.lambda() == self.lambda()
    }

    proof fn lemma_wf(&self) {
    }

    proof fn lemma_step(&self, after: &Self) {
    }

    fn borrow_u(&self) -> (u: &StateVector) {
        &self.u
    }

    fn get_step(&self) -> (step: usize) {
        self.step
    }

    fn is_completed(&self) -> (completed: bool) {
        self.completed
    }

    fn integrate(&mut self) -> (r: Result<(), CompletionError>) {
        if self.completed {
            return Err(CompletionError::AlreadyCompleted);
        }
        self.u = self.calculate_u_next();
        self.step += 1;

        if self.step >= self.step_max {
            self.completed = true;
        }
        Ok(())
    }
}

} // verus!
