//! Relaxation solvers for the Laplace equation.
//!
//! Every scheme sweeps over the interior of a grid until a sweep changes no
//! cell by more than the tolerance, or until its iteration budget is used
//! up. The outer ring of the grid is the boundary condition and never
//! changes. A solver runs once.

pub mod point_jacobi_solver;
pub mod sor_solver;

use crate::double::{abs, fdiff, fsub, is_le, le, magnitude};
use crate::error::ExecutionError;
use crate::state::{grid_get, StateGrid};
use vstd::prelude::*;

pub use crate::linear_hyperbolic::solver::NewParams;

verus! {

/// Whether `u` has `rows` rows of `cols` cells each.
pub open spec fn has_shape(u: Seq<Seq<u64>>, rows: nat, cols: nat) -> bool {
    u.len() == rows && forall|i: int| 0 <= i < rows ==> (#[trigger] u[i]).len() == cols
}

/// Whether the place `(i, j)` lies inside the outer ring of a grid of
/// `rows` by `cols` cells.
pub open spec fn is_interior(rows: nat, cols: nat, i: int, j: int) -> bool {
    0 < i < rows - 1 && 0 < j < cols - 1
}

/// Whether `v` has the shape of `u` and the same cells on the outer ring.
pub open spec fn same_ring(u: Seq<Seq<u64>>, v: Seq<Seq<u64>>) -> bool {
    &&& v.len() == u.len()
    &&& forall|i: int| 0 <= i < u.len() ==> (#[trigger] v[i]).len() == u[i].len()
    &&& forall|i: int, j: int|
        0 <= i < u.len() && 0 <= j < u[i].len() && !is_interior(u.len(), u[i].len(), i, j)
            ==> #[trigger] v[i][j] == u[i][j]
}

/// Whether no cell of `next` differs from the cell of `u` at its place by
/// more than `epsilon`. A difference that is a NaN counts as too large.
pub open spec fn settled(u: Seq<Seq<u64>>, next: Seq<Seq<u64>>, epsilon: u64) -> bool {
    forall|i: int, j: int|
        0 <= i < u.len() && 0 <= j < u[i].len() ==> le(
            magnitude(fdiff(#[trigger] next[i][j], u[i][j])),
            epsilon,
        )
}

/// What a relaxation solver holds, as the contracts see it.
pub struct Relaxation {
    /// The current grid.
    pub u: Seq<Seq<u64>>,
    /// The number of sweeps made.
    pub n_iter: nat,
    /// The iteration budget.
    pub n_iter_max: nat,
    /// The tolerance.
    pub epsilon: u64,
    /// Whether `exec` was called.
    pub executed: bool,
    /// Whether the last sweep changed no cell by more than the tolerance.
    pub converged: bool,
}

/// The solver `m` after the sweeps of a run: sweep after sweep, until one
/// changes no cell by more than the tolerance or the budget is used up.
pub open spec fn relaxed(
    sweep: spec_fn(Seq<Seq<u64>>) -> Seq<Seq<u64>>,
    m: Relaxation,
) -> Relaxation
    decreases m.n_iter_max - m.n_iter,
{
    if m.converged || m.n_iter >= m.n_iter_max {
        m
    } else {
        let next = sweep(m.u);
        relaxed(
            sweep,
            Relaxation {
                u: next,
                n_iter: m.n_iter + 1,
                converged: settled(m.u, next, m.epsilon),
                ..m
            },
        )
    }
}

/// What `exec` makes of the solver `m`, and what it returns.
pub open spec fn exec_outcome(sweep: spec_fn(Seq<Seq<u64>>) -> Seq<Seq<u64>>, m: Relaxation) -> (
    Relaxation,
    Result<(), ExecutionError>,
) {
    if m.executed {
        (m, Err(ExecutionError::AlreadyExecuted))
    } else {
        let end = relaxed(sweep, Relaxation { executed: true, ..m });
        (
            end,
            if end.converged {
                Ok(())
            } else {
                Err(ExecutionError::MaxIterationsReached)
            },
        )
    }
}

/// A relaxation solver with an iteration budget.
pub trait Solver: Sized {
    /// The solver's invariant: the grid is not empty, the budget is positive
    /// and not exceeded, and a solver that was not executed has made no
    /// sweep.
    spec fn wf(&self) -> bool;

    /// What the solver holds.
    spec fn model(&self) -> Relaxation;

    /// The grid after one sweep of the scheme over `u`.
    spec fn sweep(&self, u: Seq<Seq<u64>>) -> Seq<Seq<u64>>;

    /// What the invariant says of the counters.
    proof fn lemma_wf(&self)
        requires
            self.wf(),
        ensures
            self.model().u.len() > 0,
            self.model().n_iter_max > 0,
            self.model().n_iter <= self.model().n_iter_max,
            !self.model().executed ==> self.model().n_iter == 0 && !self.model().converged,
    ;

    /// A sweep leaves the shape of the grid and its outer ring.
    proof fn lemma_sweep(&self, u: Seq<Seq<u64>>)
        ensures
            same_ring(u, self.sweep(u)),
    ;

    /// Sweeps until the grid has settled or the budget is used up. A solver
    /// that was executed before refuses, and stays as it is. Either way the
    /// outer ring of the grid is left as it was.
    fn exec(&mut self) -> (r: Result<(), ExecutionError>)
        requires
            old(self).wf(),
        ensures
            final(self).wf(),
            (final(self).model(), r) == exec_outcome(
                |u: Seq<Seq<u64>>| old(self).sweep(u),
                old(self).model(),
            ),
            old(self).model().executed ==> *final(self) == *old(self),
            forall|u: Seq<Seq<u64>>| #[trigger] final(self).sweep(u) == old(self).sweep(u),
            final(self).model().executed,
            same_ring(old(self).model().u, final(self).model().u),
            r == Err::<(), ExecutionError>(ExecutionError::MaxIterationsReached)
                ==> final(self).model().n_iter == old(self).model().n_iter_max,
            !old(self).model().executed ==> 1 <= final(self).model().n_iter <= old(
                self,
            ).model().n_iter_max,
    ;

    /// The current grid.
    fn borrow_u(&self) -> (u: &StateGrid)
        ensures
            u@ == self.model().u,
    ;

    /// The number of sweeps made.
    fn get_n_iter(&self) -> (n_iter: usize)
        ensures
            n_iter == self.model().n_iter,
    ;
}

/// A run changes nothing but the grid, the count of sweeps and the
/// convergence flag.
pub proof fn lemma_relaxed_keeps_parameters(
    sweep: spec_fn(Seq<Seq<u64>>) -> Seq<Seq<u64>>,
    m: Relaxation,
)
    ensures
        relaxed(sweep, m).n_iter_max == m.n_iter_max,
        relaxed(sweep, m).epsilon == m.epsilon,
        relaxed(sweep, m).executed == m.executed,
    decreases m.n_iter_max - m.n_iter,
{
    if !m.converged && m.n_iter < m.n_iter_max {
        let next = sweep(m.u);
        lemma_relaxed_keeps_parameters(
            sweep,
            Relaxation {
                u: next,
                n_iter: m.n_iter + 1,
                converged: settled(m.u, next, m.epsilon),
                ..m
            },
        );
    }
}

/// A run ends within the budget; one that does not converge has used the
/// budget up, and one that converges has made a sweep.
pub proof fn lemma_relaxed_counts(sweep: spec_fn(Seq<Seq<u64>>) -> Seq<Seq<u64>>, m: Relaxation)
    requires
        m.n_iter <= m.n_iter_max,
    ensures
        m.n_iter <= relaxed(sweep, m).n_iter <= m.n_iter_max,
        !relaxed(sweep, m).converged ==> relaxed(sweep, m).n_iter == m.n_iter_max,
        !m.converged && relaxed(sweep, m).converged ==> relaxed(sweep, m).n_iter > m.n_iter,
    decreases m.n_iter_max - m.n_iter,
{
    if !m.converged && m.n_iter < m.n_iter_max {
        let next = sweep(m.u);
        lemma_relaxed_counts(
            sweep,
            Relaxation {
                u: next,
                n_iter: m.n_iter + 1,
                converged: settled(m.u, next, m.epsilon),
                ..m
            },
        );
    }
}

/// Boundary invariance, sweep by sweep: a run of sweeps that each leave the
/// outer ring leaves the outer ring.
pub proof fn lemma_relaxed_keeps_ring(sweep: spec_fn(Seq<Seq<u64>>) -> Seq<Seq<u64>>, m: Relaxation)
    requires
        forall|v: Seq<Seq<u64>>| same_ring(v, #[trigger] sweep(v)),
    ensures
        same_ring(m.u, relaxed(sweep, m).u),
    decreases m.n_iter_max - m.n_iter,
{
    if !m.converged && m.n_iter < m.n_iter_max {
        let next = sweep(m.u);
        assert(same_ring(m.u, next));
        lemma_relaxed_keeps_ring(
            sweep,
            Relaxation {
                u: next,
                n_iter: m.n_iter + 1,
                converged: settled(m.u, next, m.epsilon),
                ..m
            },
        );
    }
}

/// Boundary invariance: whatever `exec` returns, the grid has its shape and
/// its outer ring as before.
pub proof fn lemma_exec_keeps_ring(sweep: spec_fn(Seq<Seq<u64>>) -> Seq<Seq<u64>>, m: Relaxation)
    requires
        forall|v: Seq<Seq<u64>>| same_ring(v, #[trigger] sweep(v)),
    ensures
        same_ring(m.u, exec_outcome(sweep, m).0.u),
{
    if !m.executed {
        lemma_relaxed_keeps_ring(sweep, Relaxation { executed: true, ..m });
    }
}

/// Exhaustion: a solver that was not executed and whose grid does not settle
/// within its budget fails with `MaxIterationsReached`, and has then made
/// exactly as many sweeps as its budget allows; one that succeeds has made
/// at least one and no more than the budget.
pub proof fn lemma_exhaustion(sweep: spec_fn(Seq<Seq<u64>>) -> Seq<Seq<u64>>, m: Relaxation)
    requires
        !m.executed,
        !m.converged,
        m.n_iter == 0,
    ensures
        exec_outcome(sweep, m).1 is Err ==> exec_outcome(sweep, m).1 == Err::<(), ExecutionError>(
            ExecutionError::MaxIterationsReached,
        ) && exec_outcome(sweep, m).0.n_iter == m.n_iter_max,
        exec_outcome(sweep, m).1 is Ok ==> 1 <= exec_outcome(sweep, m).0.n_iter <= m.n_iter_max,
{
    lemma_relaxed_counts(sweep, Relaxation { executed: true, ..m });
}

/// Single execution: whatever the first call of `exec` returned, a second
/// call returns `AlreadyExecuted` and leaves the solver, and so its grid, as
/// the first call left it.
pub proof fn lemma_single_execution(sweep: spec_fn(Seq<Seq<u64>>) -> Seq<Seq<u64>>, m: Relaxation)
    ensures
        exec_outcome(sweep, m).0.executed,
        exec_outcome(sweep, exec_outcome(sweep, m).0) == (
            exec_outcome(sweep, m).0,
            Err::<(), ExecutionError>(ExecutionError::AlreadyExecuted),
        ),
{
    if !m.executed {
        lemma_relaxed_keeps_parameters(sweep, Relaxation { executed: true, ..m });
    }
}

/// Whether no cell of `next` differs from the cell of `u` at its place by
/// more than `epsilon`.
pub(crate) fn has_settled(u: &StateGrid, next: &StateGrid, epsilon: u64) -> (r: bool)
    requires
        has_shape(next@, u.nrows(), u.ncols()),
        next.ncols() == u.ncols(),
    ensures
        r == settled(u@, next@, epsilon),
{
    let rows: usize = u.rows();
    let cols: usize = u.cols();
    let mut all: bool = true;
    let mut i: usize = 0;
    while i < rows
        invariant
            rows == u.nrows(),
            cols == u.ncols(),
            u.rectangular(),
            has_shape(next@, u.nrows(), u.ncols()),
            next.ncols() == u.ncols(),
            i <= rows,
            all == forall|p: int, q: int|
                0 <= p < i && 0 <= q < cols ==> le(
                    magnitude(fdiff(#[trigger] next@[p][q], u@[p][q])),
                    epsilon,
                ),
        decreases rows - i,
    {
        let mut j: usize = 0;
        while j < cols
            invariant
                rows == u.nrows(),
                cols == u.ncols(),
                u.rectangular(),
                has_shape(next@, u.nrows(), u.ncols()),
                next.ncols() == u.ncols(),
                i < rows,
                j <= cols,
                all == forall|p: int, q: int|
                    (0 <= p < i && 0 <= q < cols) || (p == i && 0 <= q < j) ==> le(
                        magnitude(fdiff(#[trigger] next@[p][q], u@[p][q])),
                        epsilon,
                    ),
            decreases cols - j,
        {
            let change: u64 = abs(fsub(grid_get(next, i, j), grid_get(u, i, j)));
            if !is_le(change, epsilon) {
                all = false;
            }
            j += 1;
        }
        i += 1;
    }
    all
}

} // verus!
