//! The Beam-Warming scheme for the transport equation.
//!
//! With the Courant number `nu` and the weighting factor `lambda`, a step
//! solves
//!
//! ```text
//! -nu/2 lambda u[j-1]' + u[j]' + nu/2 lambda u[j+1]'
//!     = nu/2 (1 - lambda) u[j-1] + u[j] - nu/2 (1 - lambda) u[j+1]
//! ```
//!
//! for the new cells `u'`. `lambda = 0` is the explicit Euler scheme,
//! `lambda = 1` the implicit one and `lambda = 0.5` Crank-Nicolson. The two
//! boundary cells are fixed.

use super::{NewParams, Solver};
use crate::double::{
    fadd, fdiff, fmul, fprod, fsub, fsum, is_le, is_lt, le, lt, neg, negated, HALF, NEG_HALF, ONE,
    ZERO,
};
use crate::error::{CompletionError, ValidationError};
use crate::linear_hyperbolic::math::trinomial_eq::{decomposed, solution, TrinomialEq};
use crate::state::{vector_clone, vector_get, vector_len, vector_set, StateVector};
use vstd::prelude::*;

verus! {

/// The row that every line of the scheme's matrix repeats.
pub open spec fn mat_row(n_cfl: u64, lambda: u64) -> (u64, u64, u64) {
    let lower = fprod(fprod(NEG_HALF, n_cfl), lambda);
    (lower, ONE, negated(lower))
}

/// The scheme's matrix for `n_dim` cells.
pub open spec fn mat_coef(n_dim: nat, n_cfl: u64, lambda: u64) -> Seq<(u64, u64, u64)> {
    Seq::new(n_dim, |i: int| mat_row(n_cfl, lambda))
}

/// The weights of the left, the middle and the right cell on the right-hand
/// side.
pub open spec fn rhs_row(n_cfl: u64, lambda: u64) -> (u64, u64, u64) {
    let lower = fprod(fprod(HALF, n_cfl), fdiff(ONE, lambda));
    (lower, ONE, negated(lower))
}

/// Entry `i` of a right-hand side with the weights `w`: the weighted sum of
/// the cell and its neighbours, without the neighbour that a boundary cell
/// lacks.
pub open spec fn rhs_cell(u: Seq<u64>, w: (u64, u64, u64), i: int) -> u64 {
    if i == 0 && i == u.len() - 1 {
        fprod(w.1, u[i])
    } else if i == 0 {
        fsum(fprod(w.1, u[i]), fprod(w.2, u[i + 1]))
    } else if i == u.len() - 1 {
        fsum(fprod(w.0, u[i - 1]), fprod(w.1, u[i]))
    } else {
        fsum(fsum(fprod(w.0, u[i - 1]), fprod(w.1, u[i])), fprod(w.2, u[i + 1]))
    }
}

/// The right-hand side that the cells `u` give with the weights `w`.
pub open spec fn rhs(u: Seq<u64>, w: (u64, u64, u64)) -> Seq<u64> {
    Seq::new(u.len(), |i: int| rhs_cell(u, w, i))
}

/// The cells `inner` with the first and the last taken from `u`.
pub open spec fn with_boundary_of(inner: Seq<u64>, u: Seq<u64>) -> Seq<u64> {
    Seq::new(
        u.len(),
        |i: int|
            if i == 0 || i == u.len() - 1 {
                u[i]
            } else {
                inner[i]
            },
    )
}

/// The cells one step after `u`.
pub open spec fn next_u(u: Seq<u64>, n_cfl: u64, lambda: u64) -> Seq<u64> {
    with_boundary_of(
        solution(decomposed(mat_coef(u.len(), n_cfl, lambda)), rhs(u, rhs_row(n_cfl, lambda))),
        u,
    )
}

/// The right-hand side for the cells `u` with the weights `w`.
pub(crate) fn assemble_rhs(u: &StateVector, w: (u64, u64, u64)) -> (out: StateVector)
    requires
        u@.len() > 0,
    ensures
        out@ == rhs(u@, w),
{
    let n: usize = vector_len(u);
    let mut out = vector_clone(u);
    let mut i: usize = 0;
    while i < n
        invariant
            n == u@.len(),
            out@.len() == n,
            i <= n,
            forall|k: int| 0 <= k < i ==> out@[k] == rhs_cell(u@, w, k),
        decreases n - i,
    {
        let mid: u64 = fmul(w.1, vector_get(u, i));
        let cell: u64 = if i == 0 && i == n - 1 {
            mid
        } else if i == 0 {
            fadd(mid, fmul(w.2, vector_get(u, i + 1)))
        } else if i == n - 1 {
            fadd(fmul(w.0, vector_get(u, i - 1)), mid)
        } else {
            fadd(fadd(fmul(w.0, vector_get(u, i - 1)), mid), fmul(w.2, vector_get(u, i + 1)))
        };
        vector_set(&mut out, i, cell);
        i += 1;
    }
    assert(out@ =~= rhs(u@, w));
    out
}

/// Puts the first and the last cell of `u` back into `inner`.
pub(crate) fn restore_boundary(inner: &mut StateVector, u: &StateVector)
    requires
        u@.len() > 0,
        old(inner)@.len() == u@.len(),
    ensures
        final(inner)@ == with_boundary_of(old(inner)@, u@),
{
    let n: usize = vector_len(u);
    vector_set(inner, 0, vector_get(u, 0));
    vector_set(inner, n - 1, vector_get(u, n - 1));
    assert(inner@ =~= with_boundary_of(old(inner)@, u@));
}

/// A matrix of `n_dim` rows, each equal to `row`.
pub(crate) fn repeat_row(n_dim: usize, row: (u64, u64, u64)) -> (rows: Vec<(u64, u64, u64)>)
    ensures
        rows@ == Seq::new(n_dim as nat, |i: int| row),
{
    let mut rows: Vec<(u64, u64, u64)> = Vec::new();
    let mut i: usize = 0;
    while i < n_dim
        invariant
            i <= n_dim,
            rows@.len() == i,
            forall|k: int| 0 <= k < i ==> rows@[k] == row,
        decreases n_dim - i,
    {
        rows.push(row);
        i += 1;
    }
    assert(rows@ =~= Seq::new(n_dim as nat, |i: int| row));
    rows
}

/// Solver for the transport equation by the Beam-Warming scheme.
#[derive(Debug)]
pub struct BeamwarmingSolver {
    u: StateVector,
    step_max: usize,
    n_cfl: u64,
    lambda: u64,
    trinomial_eq: TrinomialEq,
    step: usize,
    completed: bool,
}

/// Parameters for a new `BeamwarmingSolver`.
#[derive(Debug)]
pub struct BeamwarmingSolverNewParams {
    /// Initial cells.
    pub u: StateVector,
    /// Step budget.
    pub step_max: usize,
    /// Courant number.
    pub n_cfl: u64,
    /// Weighting factor.
    pub lambda: u64,
}

impl NewParams for BeamwarmingSolverNewParams {
    open spec fn validity(&self) -> Result<(), ValidationError> {
        if self.u@.len() == 0 {
            Err(ValidationError::EmptyState)
        } else if self.step_max == 0 {
            Err(ValidationError::StepMaxNotPositive)
        } else if !lt(ZERO, self.n_cfl) {
            Err(ValidationError::CourantNotPositive)
        } else if !(le(ZERO, self.lambda) && le(self.lambda, ONE)) {
            Err(ValidationError::WeightOutOfRange)
        } else {
            Ok(())
        }
    }

    fn validate_new_params(&self) -> (r: Result<(), ValidationError>) {
        if vector_len(&self.u) == 0 {
            return Err(ValidationError::EmptyState);
        }
        if self.step_max == 0 {
            return Err(ValidationError::StepMaxNotPositive);
        }
        if !is_lt(ZERO, self.n_cfl) {
            return Err(ValidationError::CourantNotPositive);
        }
        if !(is_le(ZERO, self.lambda) && is_le(self.lambda, ONE)) {
            return Err(ValidationError::WeightOutOfRange);
        }
        Ok(())
    }
}

impl BeamwarmingSolver {
    /// The Courant number.
    pub closed spec fn n_cfl(&self) -> u64 {
        self.n_cfl
    }

    /// The weighting factor.
    pub closed spec fn lambda(&self) -> u64 {
        self.lambda
    }

    /// A solver at step zero, or the first check that the parameters fail.
    pub fn new(new_params: BeamwarmingSolverNewParams) -> (r: Result<Self, ValidationError>)
        ensures
            match new_params.validity() {
                Ok(()) => r matches Ok(solver) && {
                    &&& solver.wf()
                    &&& solver.state() == new_params.u@
                    &&& solver.step() == 0
                    &&& !solver.completed()
                    &&& solver.step_max() == new_params.step_max
                    &&& solver.n_cfl() == new_params.n_cfl
                    &&& solver.lambda() == new_params.lambda
                },
                Err(e) => r matches Err(x) && x == e,
            },
    {
        match new_params.validate_new_params() {
            Err(e) => {
                return Err(e);
            },
            Ok(()) => {},
        }
        let u_len: usize = vector_len(&new_params.u);
        Ok(
            BeamwarmingSolver {
                u: new_params.u,
                step_max: new_params.step_max,
                n_cfl: new_params.n_cfl,
                lambda: new_params.lambda,
                trinomial_eq: TrinomialEq::new(
                    Self::create_mat_coef(u_len, new_params.n_cfl, new_params.lambda),
                ),
                step: 0,
                completed: false,
            },
        )
    }

    fn calculate_u_next(&self) -> (u_next: StateVector)
        requires
            self.wf(),
        ensures
            u_next@ == next_u(self.state(), self.n_cfl(), self.lambda()),
    {
        let coef_lower_rhs: u64 = fmul(fmul(HALF, self.n_cfl), fsub(ONE, self.lambda));
        let coef_diag_rhs: u64 = ONE;
        let coef_upper_rhs: u64 = neg(coef_lower_rhs);

        let mut u_next = assemble_rhs(&self.u, (coef_lower_rhs, coef_diag_rhs, coef_upper_rhs));
        let solved = self.trinomial_eq.solve(&mut u_next);
        assert(solved is Ok);
        restore_boundary(&mut u_next, &self.u);
        u_next
    }

    fn create_mat_coef(n_dim: usize, n_cfl: u64, lambda: u64) -> (rows: Vec<(u64, u64, u64)>)
        ensures
            rows@ == mat_coef(n_dim as nat, n_cfl, lambda),
    {
        let coef_lower: u64 = fmul(fmul(NEG_HALF, n_cfl), lambda);
        let coef_diag: u64 = ONE;
        let coef_upper: u64 = neg(coef_lower);

        repeat_row(n_dim, (coef_lower, coef_diag, coef_upper))
    }
}

impl Solver for BeamwarmingSolver {
    closed spec fn wf(&self) -> bool {
        &&& self.u@.len() > 0
        &&& self.step_max > 0
        &&& self.step <= self.step_max
        &&& self.completed == (self.step >= self.step_max)
        &&& self.trinomial_eq.wf()
        &&& self.trinomial_eq@ == decomposed(mat_coef(self.u@.len(), self.n_cfl, self.lambda))
    }

    closed spec fn state(&self) -> Seq<u64> {
        self.u@
    }

    closed spec fn step(&self) -> nat {
        self.step as nat
    }

    closed spec fn step_max(&self) -> nat {
        self.step_max as nat
    }

    closed spec fn completed(&self) -> bool {
        self.completed
    }

    open spec fn steps_to(&self, after: &Self) -> bool {
        &&& !self.completed()
        &&& after.wf()
        &&& after.state() == next_u(self.state(), self.n_cfl(), self.lambda())
        &&& after.step() == self.step() + 1
        &&& after.step_max() == self.step_max()
        &&& after.n_cfl() == self.n_cfl()
        &&& after.lambda() == self.lambda()
    }

    proof fn lemma_wf(&self) {
    }

    proof fn lemma_step(&self, after: &Self) {
    }

    fn borrow_u(&self) -> (u: &StateVector) {
        &self.u
    }

    fn get_step(&self) -> (step: usize) {
        self.step
    }

    fn is_completed(&self) -> (completed: bool) {
        self.completed
    }

    fn integrate(&mut self) -> (r: Result<(), CompletionError>) {
        if self.completed {
            return Err(CompletionError::AlreadyCompleted);
        }
        self.u = self.calculate_u_next();
        self.step += 1;

        if self.step >= self.step_max {
            self.completed = true;
        }
        Ok(())
    }
}

} // verus!
