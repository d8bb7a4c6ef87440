//! Time-steppers for the transport equation.
//!
//! Every scheme advances a vector of cells one step at a time until its step
//! budget is used up, and holds the first and the last cell fixed.

pub mod beamwarming_solver;
pub mod ftcs_solver;
pub mod lax_solver;
pub mod laxwendroff_solver;
pub mod leapfrog_solver;
pub mod maccormack_solver;
pub mod upwind_solver;

use crate::error::{CompletionError, ValidationError};
use crate::state::StateVector;
use vstd::prelude::*;

verus! {

/// A time-stepper with a step budget.
pub trait Solver: Sized {
    /// The solver's invariant: the state is not empty, the budget is
    /// positive, and the solver is completed exactly when its steps have
    /// reached the budget.
    spec fn wf(&self) -> bool;

    /// The current cells.
    spec fn state(&self) -> Seq<u64>;

    /// The number of steps made.
    spec fn step(&self) -> nat;

    /// The step budget.
    spec fn step_max(&self) -> nat;

    /// Whether the budget is used up.
    spec fn completed(&self) -> bool;

    /// Whether `after` is this solver one step on, as the scheme defines it.
    spec fn steps_to(&self, after: &Self) -> bool;

    /// What the invariant says of the counters.
    proof fn lemma_wf(&self)
        requires
            self.wf(),
        ensures
            self.state().len() > 0,
            self.step_max() > 0,
            self.step() <= self.step_max(),
            self.completed() <==> self.step() == self.step_max(),
    ;

    /// What every scheme's step has in common: it is made by a solver that
    /// is not completed, counts as one, and leaves the budget, the number of
    /// cells and the two boundary cells.
    proof fn lemma_step(&self, after: &Self)
        requires
            self.wf(),
            self.steps_to(after),
        ensures
            after.wf(),
            !self.completed(),
            after.step() == self.step() + 1,
            after.step_max() == self.step_max(),
            after.state().len() == self.state().len(),
            after.state()[0] == self.state()[0],
            after.state().last() == self.state().last(),
    ;

    /// The current cells.
    fn borrow_u(&self) -> (u: &StateVector)
        ensures
            u@ == self.state(),
    ;

    /// The number of steps made.
    fn get_step(&self) -> (step: usize)
        ensures
            step == self.step(),
    ;

    /// Whether the budget is used up.
    fn is_completed(&self) -> (completed: bool)
        ensures
            completed == self.completed(),
    ;

    /// Advances the state by one step of the scheme, and counts it. The
    /// first and the last cell stay. The solver is completed when its steps
    /// have reached the budget. A completed solver refuses, and stays as it
    /// is.
    fn integrate(&mut self) -> (r: Result<(), CompletionError>)
        requires
            old(self).wf(),
        ensures
            final(self).wf(),
            old(self).completed() ==> r == Err::<(), CompletionError>(
                CompletionError::AlreadyCompleted,
            ) && *final(self) == *old(self),
            !old(self).completed() ==> r is Ok && old(self).steps_to(final(self)),
            !old(self).completed() ==> final(self).step() == old(self).step() + 1,
            final(self).completed() <==> final(self).step() == final(self).step_max(),
            final(self).step() <= final(self).step_max(),
            final(self).step_max() == old(self).step_max(),
            final(self).state().len() == old(self).state().len(),
            final(self).state()[0] == old(self).state()[0],
            final(self).state().last() == old(self).state().last(),
    ;
}

/// The parameters of a solver's constructor.
pub trait NewParams {
    /// The first check that fails, in the order the constructor makes them.
    spec fn validity(&self) -> Result<(), ValidationError>;

    /// Checks the parameters.
    fn validate_new_params(&self) -> (r: Result<(), ValidationError>)
        ensures
            r == self.validity(),
    ;
}

/// Whether `k` successive steps lead from `first` to `last`.
pub open spec fn reaches<S: Solver>(first: S, last: S, k: nat) -> bool
    decreases k,
{
    if k == 0 {
        first == last
    } else {
        exists|mid: S| reaches(first, mid, (k - 1) as nat) && #[trigger] mid.steps_to(&last)
    }
}

/// Boundary invariance: in every scheme and after any number of steps, the
/// first and the last cell are what they were, and so is the number of cells.
pub proof fn lemma_boundary_invariance<S: Solver>(first: S, last: S, k: nat)
    requires
        first.wf(),
        reaches(first, last, k),
    ensures
        last.wf(),
        last.step() == first.step() + k,
        last.step_max() == first.step_max(),
        last.state().len() == first.state().len(),
        last.state()[0] == first.state()[0],
        last.state().last() == first.state().last(),
    decreases k,
{
    if k > 0 {
        let mid = choose|mid: S|
            reaches(first, mid, (k - 1) as nat) && #[trigger] mid.steps_to(&last);
        lemma_boundary_invariance(first, mid, (k - 1) as nat);
        mid.lemma_step(&last);
    }
}

/// Termination: a solver that starts at step zero cannot make more steps
/// than its budget, and is completed after exactly that many, never before.
pub proof fn lemma_completed_exactly_at_budget<S: Solver>(first: S, last: S, k: nat)
    requires
        first.wf(),
        first.step() == 0,
        reaches(first, last, k),
    ensures
        k <= first.step_max(),
        last.completed() <==> k == first.step_max(),
{
    lemma_boundary_invariance(first, last, k);
    last.lemma_wf();
}

/// Whether the state after `step` steps is due for output, when every
/// `ncycle_out`-th is.
pub open spec fn is_output_step(step: int, ncycle_out: int) -> bool {
    step % ncycle_out == 0
}

/// Integrates until the number of steps made is a multiple of `ncycle_out`,
/// at which the state is due for output, or until the solver is completed.
/// Says whether the state is due.
pub fn integrate_to_output<S: Solver>(solver: &mut S, ncycle_out: usize) -> (due: bool)
    requires
        old(solver).wf(),
        !old(solver).completed(),
        ncycle_out > 0,
    ensures
        final(solver).wf(),
        old(solver).step() < final(solver).step() <= final(solver).step_max(),
        final(solver).step_max() == old(solver).step_max(),
        reaches(
            *old(solver),
            *final(solver),
            (final(solver).step() - old(solver).step()) as nat,
        ),
        forall|s: int|
            old(solver).step() < s < final(solver).step() ==> !#[trigger] is_output_step(
                s,
                ncycle_out as int,
            ),
        due == is_output_step(final(solver).step() as int, ncycle_out as int),
        !due ==> final(solver).completed(),
{
    let ghost first = *solver;
    loop
        invariant
            first == *old(solver),
            first.wf(),
            solver.wf(),
            !solver.completed(),
            ncycle_out > 0,
            solver.step() >= first.step(),
            solver.step_max() == first.step_max(),
            reaches(first, *solver, (solver.step() - first.step()) as nat),
            forall|s: int|
                first.step() < s <= solver.step() ==> !#[trigger] is_output_step(
                    s,
                    ncycle_out as int,
                ),
        decreases solver.step_max() - solver.step(),
    {
        let ghost before = *solver;
        proof {
            before.lemma_wf();
        }
        let _ = solver.integrate();
        proof {
            before.lemma_step(&*solver);
            solver.lemma_wf();
        }
        if solver.get_step() % ncycle_out == 0 {
            return true;
        }
        if solver.is_completed() {
            return false;
        }
    }
}

} // verus!
