//! The Lax-Wendroff scheme for the transport equation, in its two-step form.
//!
//! With the Courant number `nu`, a step first takes the values half a step
//! on and half a cell to the right,
//! `h[j] = (u[j+1] + u[j])/2 - nu/2 (u[j+1] - u[j])`, and then replaces every
//! interior cell by `u[j] - nu (h[j] - h[j-1])`. The two boundary cells are
//! fixed.

use super::{NewParams, Solver};
use crate::double::{fadd, fdiff, fmul, fprod, fsub, fsum, is_lt, lt, HALF, ZERO};
use crate::error::{CompletionError, ValidationError};
use crate::state::{vector_len, StateVector};
use crate::stencil::{blend_interior, interior_blended, interior_updated, update_interior};
use vstd::prelude::*;

verus! {

/// The value half a step on, between the cell `mid` and its neighbour `right`.
pub open spec fn halfstep_cell(n_cfl: u64, left: u64, mid: u64, right: u64) -> u64 {
    fdiff(fprod(HALF, fsum(right, mid)), fprod(fprod(HALF, n_cfl), fdiff(right, mid)))
}

/// The new value of the cell `mid`, from the half-step values on its two sides.
pub open spec fn next_cell(
    n_cfl: u64,
    mid: u64,
    halfstep_left: u64,
    halfstep_mid: u64,
    halfstep_right: u64,
) -> u64 {
    fdiff(mid, fprod(n_cfl, fdiff(halfstep_mid, halfstep_left)))
}

/// The half-step values for the cells `u`: entry `j` lies between the cells `j`
/// and `j + 1`; the first and the last entry are the boundary cells.
pub open spec fn halfstep_u(u: Seq<u64>, n_cfl: u64) -> Seq<u64> {
    interior_updated(u, n_cfl, |nu: u64, l: u64, c: u64, r: u64| halfstep_cell(nu, l, c, r))
}

/// The cells one step after `u`.
pub open spec fn next_u(u: Seq<u64>, n_cfl: u64) -> Seq<u64> {
    interior_blended(
        u,
        halfstep_u(u, n_cfl),
        n_cfl,
        |nu: u64, o: u64, l: u64, c: u64, r: u64| next_cell(nu, o, l, c, r),
    )
}

/// The value half a step on, between the cell `mid` and its neighbour `right`.
pub fn calculate_halfstep_cell(n_cfl: u64, left: u64, mid: u64, right: u64) -> (out: u64)
    ensures
        out == halfstep_cell(n_cfl, left, mid, right),
{
    fsub(fmul(HALF, fadd(right, mid)), fmul(fmul(HALF, n_cfl), fsub(right, mid)))
}

/// The new value of the cell `mid`, from the half-step values on its two sides.
pub fn calculate_cell(
    n_cfl: u64,
    mid: u64,
    halfstep_left: u64,
    halfstep_mid: u64,
    halfstep_right: u64,
) -> (out: u64)
    ensures
        out == next_cell(n_cfl, mid, halfstep_left, halfstep_mid, halfstep_right),
{
    fsub(mid, fmul(n_cfl, fsub(halfstep_mid, halfstep_left)))
}

/// Solver for the transport equation by the Lax-Wendroff scheme.
#[derive(Debug)]
pub struct LaxwendroffSolver {
    u: StateVector,
    step_max: usize,
    n_cfl: u64,
    step: usize,
    completed: bool,
}

/// Parameters for a new `LaxwendroffSolver`.
#[derive(Debug)]
pub struct LaxwendroffSolverNewParams {
    /// Initial cells.
    pub u: StateVector,
    /// Step budget.
    pub step_max: usize,
    /// Courant number.
    pub n_cfl: u64,
}

impl NewParams for LaxwendroffSolverNewParams {
    open spec fn validity(&self) -> Result<(), ValidationError> {
        if self.u@.len() == 0 {
            Err(ValidationError::EmptyState)
        } else if self.step_max == 0 {
            Err(ValidationError::StepMaxNotPositive)
        } else if !lt(ZERO, self.n_cfl) {
            Err(ValidationError::CourantNotPositive)
        } else {
            Ok(())
        }
    }

    fn validate_new_params(&self) -> (r: Result<(), ValidationError>) {
        if vector_len(&self.u) == 0 {
            return Err(ValidationError::EmptyState);
        }
        if self.step_max == 0 {
            return Err(ValidationError::StepMaxNotPositive);
        }
        if !is_lt(ZERO, self.n_cfl) {
            return Err(ValidationError::CourantNotPositive);
        }
        Ok(())
    }
}

impl LaxwendroffSolver {
    /// Courant number.
    pub closed spec fn n_cfl(&self) -> u64 {
        self.n_cfl
    }

    /// A solver at step zero, or the first check that the parameters fail.
    pub fn new(new_params: LaxwendroffSolverNewParams) -> (r: Result<Self, ValidationError>)
        ensures
            match new_params.validity() {
                Ok(()) => r matches Ok(solver) && {
                    &&& solver.wf()
                    &&& solver.state() == new_params.u@
                    &&& solver.step() == 0
                    &&& !solver.completed()
                    &&& solver.step_max() == new_params.step_max
                    &&& solver.n_cfl() == new_params.n_cfl
                },
                Err(e) => r matches Err(x) && x == e,
            },
    {
        match new_params.validate_new_params() {
            Err(e) => {
                return Err(e);
            },
            Ok(()) => {},
        }
        Ok(
            LaxwendroffSolver {
                u: new_params.u,
                step_max: new_params.step_max,
                n_cfl: new_params.n_cfl,
                step: 0,
                completed: false,
            },
        )
    }

    fn calculate_u_next(&self) -> (u_next: StateVector)
        ensures
            u_next@ == next_u(self.state(), self.n_cfl()),
    {
        let u_halfstep = update_interior(
            &self.u,
            self.n_cfl,
            calculate_halfstep_cell,
            Ghost(|nu: u64, l: u64, c: u64, r: u64| halfstep_cell(nu, l, c, r)),
        );
        blend_interior(
            &self.u,
            &u_halfstep,
            self.n_cfl,
            calculate_cell,
            Ghost(|nu: u64, o: u64, l: u64, c: u64, r: u64| next_cell(nu, o, l, c, r)),
        )
    }
}

impl Solver for LaxwendroffSolver {
    closed spec fn wf(&self) -> bool {
        &&& self.u@.len() > 0
        &&& self.step_max > 0
        &&& self.step <= self.step_max
        &&& self.completed == (self.step >= self.step_max)
    }

    closed spec fn state(&self) -> Seq<u64> {
        self.u@
    }

    closed spec fn step(&self) -> nat {
        self.step as nat
    }

    closed spec fn step_max(&self) -> nat {
        self.step_max as nat
    }

    closed spec fn completed(&self) -> bool {
        self.completed
    }

    open spec fn steps_to(&self, after: &Self) -> bool {
        &&& !self.completed()
        &&& after.wf()
        &&& after.state() == next_u(self.state(), self.n_cfl())
        &&& after.step() == self.step() + 1
        &&& after.step_max() == self.step_max()
        &&& after.n_cfl() == self.n_cfl()
    }

    proof fn lemma_wf(&self) {
    }

    proof fn lemma_step(&self, after: &Self) {
    }

    fn borrow_u(&self) -> (u: &StateVector) {
        &self.u
    }

    fn get_step(&self) -> (step: usize) {
        self.step
    }

    fn is_completed(&self) -> (completed: bool) {
        self.completed
    }

    fn integrate(&mut self) -> (r: Result<(), CompletionError>) {
        if self.completed {
            return Err(CompletionError::AlreadyCompleted);
        }
        self.u = self.calculate_u_next();
        self.step += 1;

        if self.step >= self.step_max {
            self.completed = true;
        }
        Ok(())
    }
}

} // verus!
