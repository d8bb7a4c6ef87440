//! Solver for the transport equation by a one-sided difference in space.
//!
//! With the velocity `v`, the time step `dt` and the cell width `dx`, a step
//! replaces every interior cell by `u[j] - v dt / dx (u[j+1] - u[j])` (the
//! forward difference) or by `u[j] - v dt / dx (u[j] - u[j-1])` (the backward
//! difference). The two boundary cells are fixed. The solver is completed
//! when it has made as many steps as its budget allows; the time it reports
//! is the sum of the time steps made.

use crate::double::{
    fadd, fdiff, fdiv, fmul, fprod, fquot, fsub, fsum, is_le, is_lt, le, lt, ZERO,
};
use crate::error::{CompletionError, ValidationError};
use crate::linear_hyperbolic::solver::is_output_step;
use crate::state::{vector_len, StateVector};
use crate::stencil::{interior_updated, update_interior};
use vstd::prelude::*;

verus! {

/// The side on which the difference in space is taken.
#[derive(Debug, Clone, Copy, PartialEq, Eq, Structural)]
pub enum DiffMethod {
    /// Forward difference: the cell and its right neighbour.
    Forward,
    /// Backward difference: the cell and its left neighbour.
    Backward,
}

/// The Courant number `v dt / dx`, as a step computes it.
pub open spec fn courant(v_adv: u64, dx: u64, dt: u64) -> u64 {
    fquot(fprod(v_adv, dt), dx)
}

/// The new value of the cell `mid` by the forward difference.
pub open spec fn forward_cell(nu: u64, left: u64, mid: u64, right: u64) -> u64 {
    fdiff(mid, fprod(nu, fdiff(right, mid)))
}

/// The new value of the cell `mid` by the backward difference.
pub open spec fn backward_cell(nu: u64, left: u64, mid: u64, right: u64) -> u64 {
    fdiff(mid, fprod(nu, fdiff(mid, left)))
}

/// The cells one step after `u`.
pub open spec fn next_u(method: DiffMethod, u: Seq<u64>, v_adv: u64, dx: u64, dt: u64) -> Seq<u64> {
    match method {
        DiffMethod::Forward => interior_updated(
            u,
            courant(v_adv, dx, dt),
            |nu: u64, l: u64, c: u64, r: u64| forward_cell(nu, l, c, r),
        ),
        DiffMethod::Backward => interior_updated(
            u,
            courant(v_adv, dx, dt),
            |nu: u64, l: u64, c: u64, r: u64| backward_cell(nu, l, c, r),
        ),
    }
}

/// The new value of the cell `mid` by the forward difference.
pub fn calculate_forward_cell(nu: u64, left: u64, mid: u64, right: u64) -> (out: u64)
    ensures
        out == forward_cell(nu, left, mid, right),
{
    fsub(mid, fmul(nu, fsub(right, mid)))
}

/// The new value of the cell `mid` by the backward difference.
pub fn calculate_backward_cell(nu: u64, left: u64, mid: u64, right: u64) -> (out: u64)
    ensures
        out == backward_cell(nu, left, mid, right),
{
    fsub(mid, fmul(nu, fsub(mid, left)))
}

impl DiffMethod {
    fn calculate_next_u(&self, u: &StateVector, v_adv: u64, dx: u64, dt: u64) -> (next: StateVector)
        ensures
            next@ == next_u(*self, u@, v_adv, dx, dt),
    {
        match self {
            DiffMethod::Forward => self.calculate_next_u_by_forward(u, v_adv, dx, dt),
            DiffMethod::Backward => self.calculate_next_u_by_backward(u, v_adv, dx, dt),
        }
    }

    fn calculate_next_u_by_forward(&self, u: &StateVector, v_adv: u64, dx: u64, dt: u64) -> (next:
        StateVector)
        ensures
            next@ == next_u(DiffMethod::Forward, u@, v_adv, dx, dt),
    {
        update_interior(
            u,
            fdiv(fmul(v_adv, dt), dx),
            calculate_forward_cell,
            Ghost(|nu: u64, l: u64, c: u64, r: u64| forward_cell(nu, l, c, r)),
        )
    }

    fn calculate_next_u_by_backward(&self, u: &StateVector, v_adv: u64, dx: u64, dt: u64) -> (next:
        StateVector)
        ensures
            next@ == next_u(DiffMethod::Backward, u@, v_adv, dx, dt),
    {
        update_interior(
            u,
            fdiv(fmul(v_adv, dt), dx),
            calculate_backward_cell,
            Ghost(|nu: u64, l: u64, c: u64, r: u64| backward_cell(nu, l, c, r)),
        )
    }
}

/// Solver for the transport equation by a one-sided difference.
#[derive(Debug)]
pub struct UpwindSolver {
    u: StateVector,
    v_adv: u64,
    dx: u64,
    dt: u64,
    step_max: usize,
    t: u64,
    step: usize,
    diff_method: DiffMethod,
    completed: bool,
}

/// What an `UpwindSolver` holds, as the contracts see it.
pub struct Upwind {
    /// The current cells.
    pub u: Seq<u64>,
    /// Advection velocity.
    pub v_adv: u64,
    /// Cell width.
    pub dx: u64,
    /// Time step.
    pub dt: u64,
    /// Step budget.
    pub step_max: nat,
    /// Current time: the sum of the time steps made.
    pub t: u64,
    /// The number of steps made.
    pub step: nat,
    /// The side of the difference.
    pub diff_method: DiffMethod,
    /// Whether the budget is used up.
    pub completed: bool,
}

impl Upwind {
    /// The solver's invariant: the state is not empty, the budget is
    /// positive and not exceeded, and the solver is completed exactly when
    /// its steps have reached the budget.
    pub open spec fn wf(self) -> bool {
        &&& self.u.len() > 0
        &&& self.step_max > 0
        &&& self.step <= self.step_max
        &&& self.completed == (self.step >= self.step_max)
    }
}

/// The first check that fails for a state of `n_cells` cells, the budget
/// `step_max` and the Courant number `n_cfl`, in the order the constructor
/// makes them. A Courant number that is a NaN is refused.
pub open spec fn validity_of(n_cells: nat, step_max: nat, n_cfl: u64) -> Result<
    (),
    ValidationError,
> {
    if n_cells == 0 {
        Err(ValidationError::EmptyState)
    } else if step_max == 0 {
        Err(ValidationError::StepMaxNotPositive)
    } else if !lt(ZERO, n_cfl) {
        Err(ValidationError::CourantNotPositive)
    } else {
        Ok(())
    }
}

/// The first check that the parameters of a constructor fail: the state is
/// not empty, the budget is positive, and so is the Courant number
/// `v_adv dt / dx`.
pub open spec fn validity(u: Seq<u64>, v_adv: u64, dx: u64, dt: u64, step_max: nat) -> Result<
    (),
    ValidationError,
> {
    validity_of(u.len(), step_max, courant(v_adv, dx, dt))
}

/// Checks the number of cells, the budget and the Courant number.
pub fn validate(n_cells: usize, step_max: usize, n_cfl: u64) -> (r: Result<(), ValidationError>)
    ensures
        r == validity_of(n_cells as nat, step_max as nat, n_cfl),
{
    if n_cells == 0 {
        return Err(ValidationError::EmptyState);
    }
    if step_max == 0 {
        return Err(ValidationError::StepMaxNotPositive);
    }
    if !is_lt(ZERO, n_cfl) {
        return Err(ValidationError::CourantNotPositive);
    }
    Ok(())
}

/// The solver `m` one step on.
pub open spec fn integrated(m: Upwind) -> Upwind {
    Upwind {
        u: next_u(m.diff_method, m.u, m.v_adv, m.dx, m.dt),
        t: fsum(m.t, m.dt),
        step: m.step + 1,
        completed: m.step + 1 >= m.step_max,
        ..m
    }
}

/// The solver `m` after `k` steps.
pub open spec fn integrated_times(m: Upwind, k: nat) -> Upwind
    decreases k,
{
    if k == 0 {
        m
    } else {
        integrated(integrated_times(m, (k - 1) as nat))
    }
}

/// The time that a solver reports after `k` steps of `dt` from time zero.
pub open spec fn time_after(dt: u64, k: nat) -> u64
    decreases k,
{
    if k == 0 {
        ZERO
    } else {
        fsum(time_after(dt, (k - 1) as nat), dt)
    }
}

/// Boundary invariance: after any number of steps the first and the last
/// cell are what they were, and so is the number of cells.
pub proof fn lemma_boundary_invariance(m: Upwind, k: nat)
    ensures
        integrated_times(m, k).u.len() == m.u.len(),
        m.u.len() > 0 ==> integrated_times(m, k).u[0] == m.u[0] && integrated_times(m, k).u.last()
            == m.u.last(),
        integrated_times(m, k).step == m.step + k,
        integrated_times(m, k).step_max == m.step_max,
    decreases k,
{
    if k > 0 {
        lemma_boundary_invariance(m, (k - 1) as nat);
    }
}

/// Termination: a solver at step zero is completed after exactly as many
/// steps as its budget allows, never before. The time it has then counted
/// plays no part.
pub proof fn lemma_completed_exactly_at_budget(m: Upwind, k: nat)
    requires
        m.wf(),
        m.step == 0,
        k <= m.step_max,
    ensures
        integrated_times(m, k).wf(),
        integrated_times(m, k).completed <==> k == m.step_max,
    decreases k,
{
    if k > 0 {
        lemma_completed_exactly_at_budget(m, (k - 1) as nat);
        lemma_boundary_invariance(m, (k - 1) as nat);
    }
}

/// The time that a solver reports is the sum of its time steps, whatever
/// else it holds.
pub proof fn lemma_time_counts_steps(m: Upwind, k: nat)
    requires
        m.t == ZERO,
    ensures
        integrated_times(m, k).t == time_after(m.dt, k),
        integrated_times(m, k).dt == m.dt,
    decreases k,
{
    if k > 0 {
        lemma_time_counts_steps(m, (k - 1) as nat);
    }
}

/// The number of steps of `dt` after which the time counted from zero is
/// not less than `t_max`: the budget of a run that is to reach that time.
/// `None` when `limit` steps do not reach it.
pub fn step_budget(dt: u64, t_max: u64, limit: usize) -> (budget: Option<usize>)
    ensures
        match budget {
            Some(n) => {
                &&& 1 <= n <= limit
                &&& le(t_max, time_after(dt, n as nat))
                &&& forall|k: nat| 1 <= k < n ==> !le(t_max, #[trigger] time_after(dt, k))
            },
            None => forall|k: nat| 1 <= k <= limit ==> !le(t_max, #[trigger] time_after(dt, k)),
        },
{
    let mut t: u64 = ZERO;
    let mut n: usize = 0;
    while n < limit
        invariant
            n <= limit,
            t == time_after(dt, n as nat),
            forall|k: nat| 1 <= k <= n ==> !le(t_max, #[trigger] time_after(dt, k)),
        decreases limit - n,
    {
        t = fadd(t, dt);
        n += 1;
        if is_le(t_max, t) {
            return Some(n);
        }
    }
    None
}

impl View for UpwindSolver {
    type V = Upwind;

    closed spec fn view(&self) -> Upwind {
        Upwind {
            u: self.u@,
            v_adv: self.v_adv,
            dx: self.dx,
            dt: self.dt,
            step_max: self.step_max as nat,
            t: self.t,
            step: self.step as nat,
            diff_method: self.diff_method,
            completed: self.completed,
        }
    }
}

impl UpwindSolver {
    /// A solver at time zero and step zero, or the first check that the
    /// parameters fail.
    pub fn new(
        u: StateVector,
        v_adv: u64,
        dx: u64,
        dt: u64,
        step_max: usize,
        diff_method: DiffMethod,
    ) -> (r: Result<Self, ValidationError>)
        ensures
            match validity(u@, v_adv, dx, dt, step_max as nat) {
                Ok(()) => r matches Ok(solver) && solver@.wf() && solver@ == (Upwind {
                    u: u@,
                    v_adv,
                    dx,
                    dt,
                    step_max: step_max as nat,
                    t: ZERO,
                    step: 0,
                    diff_method,
                    completed: false,
                }),
                Err(e) => r matches Err(x) && x == e,
            },
    {
        match validate(vector_len(&u), step_max, fdiv(fmul(v_adv, dt), dx)) {
            Err(e) => {
                return Err(e);
            },
            Ok(()) => {},
        }
        Ok(
            UpwindSolver {
                u,
                v_adv,
                dx,
                dt,
                step_max,
                t: ZERO,
                step: 0,
                diff_method,
                completed: false,
            },
        )
    }

    /// The current cells.
    pub fn borrow_u(&self) -> (u: &StateVector)
        ensures
            u@ == self@.u,
    {
        &self.u
    }

    /// The current time.
    pub fn get_t(&self) -> (t: u64)
        ensures
            t == self@.t,
    {
        self.t
    }

    /// The number of steps made.
    pub fn get_step(&self) -> (step: usize)
        ensures
            step == self@.step,
    {
        self.step
    }

    /// Whether the budget is used up.
    pub fn is_completed(&self) -> (completed: bool)
        ensures
            completed == self@.completed,
    {
        self.completed
    }

    /// Advances the state by one time step, and counts the step and its
    /// time. The two boundary cells stay. The solver is completed when its
    /// steps have reached the budget. A completed solver refuses, and stays
    /// as it is.
    pub fn integrate(&mut self) -> (r: Result<(), CompletionError>)
        requires
            old(self)@.wf(),
        ensures
            final(self)@.wf(),
            old(self)@.completed ==> r == Err::<(), CompletionError>(
                CompletionError::AlreadyCompleted,
            ) && *final(self) == *old(self),
            !old(self)@.completed ==> r is Ok && final(self)@ == integrated(old(self)@),
            final(self)@.completed <==> final(self)@.step == final(self)@.step_max,
            final(self)@.u.len() == old(self)@.u.len(),
            final(self)@.u[0] == old(self)@.u[0],
            final(self)@.u.last() == old(self)@.u.last(),
    {
        if self.completed {
            return Err(CompletionError::AlreadyCompleted);
        }
        self.u = self.diff_method.calculate_next_u(&self.u, self.v_adv, self.dx, self.dt);
        self.t = fadd(self.t, self.dt);
        self.step += 1;

        if self.step >= self.step_max {
            self.completed = true;
        }
        Ok(())
    }

    /// Integrates until the number of steps made is a multiple of
    /// `ncycle_out`, at which the state is due for output, or until the
    /// solver is completed. Says whether the state is due.
    pub fn integrate_to_output(&mut self, ncycle_out: usize) -> (due: bool)
        requires
            old(self)@.wf(),
            !old(self)@.completed,
            ncycle_out > 0,
        ensures
            final(self)@.wf(),
            old(self)@.step < final(self)@.step <= old(self)@.step_max,
            final(self)@ == integrated_times(
                old(self)@,
                (final(self)@.step - old(self)@.step) as nat,
            ),
            forall|s: int|
                old(self)@.step < s < final(self)@.step ==> !#[trigger] is_output_step(
                    s,
                    ncycle_out as int,
                ),
            due == is_output_step(final(self)@.step as int, ncycle_out as int),
            !due ==> final(self)@.completed,
    {
        let ghost first = self@;
        loop
            invariant
                first == old(self)@,
                self@.wf(),
                !self@.completed,
                ncycle_out > 0,
                first.step <= self@.step,
                self@.step_max == first.step_max,
                self@ == integrated_times(first, (self@.step - first.step) as nat),
                forall|s: int|
                    first.step < s <= self@.step ==> !#[trigger] is_output_step(
                        s,
                        ncycle_out as int,
                    ),
            decreases self@.step_max - self@.step,
        {
            let ghost before = self@;
            let _ = self.integrate();
            assert(self@ == integrated_times(first, (self@.step - first.step) as nat)) by {
                assert(integrated_times(first, (before.step + 1 - first.step) as nat)
                    == integrated(integrated_times(first, (before.step - first.step) as nat)));
            }
            if self.step % ncycle_out == 0 {
                return true;
            }
            if self.completed {
                return false;
            }
        }
    }
}

} // verus!
