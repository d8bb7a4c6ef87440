//! The point Jacobi scheme for the Laplace equation.
//!
//! A sweep replaces every interior cell by the average of its four
//! neighbours before the sweep,
//! `(u[j-1][k] + u[j+1][k] + u[j][k-1] + u[j][k+1]) / 4`. The outer ring of
//! the grid is fixed.

use super::{
    has_settled, has_shape, is_interior, lemma_relaxed_counts, lemma_relaxed_keeps_ring, relaxed,
    same_ring, settled, NewParams, Relaxation, Solver,
};
use crate::double::{fadd, fmul, fprod, fsum, QUARTER, TOLERANCE};
use crate::error::{ExecutionError, ValidationError};
use crate::state::{grid_clone, grid_get, grid_set, StateGrid};
use vstd::prelude::*;

verus! {

/// The average of the four neighbours of a cell.
pub open spec fn next_cell(up: u64, down: u64, left: u64, right: u64) -> u64 {
    fprod(QUARTER, fsum(fsum(fsum(up, down), left), right))
}

/// The cell at `(i, j)` after a sweep over `u`.
pub open spec fn next_at(u: Seq<Seq<u64>>, i: int, j: int) -> u64 {
    if is_interior(u.len(), u[i].len(), i, j) {
        next_cell(u[i - 1][j], u[i + 1][j], u[i][j - 1], u[i][j + 1])
    } else {
        u[i][j]
    }
}

/// The grid after a sweep over `u`.
pub open spec fn next_u(u: Seq<Seq<u64>>) -> Seq<Seq<u64>> {
    Seq::new(u.len(), |i: int| Seq::new(u[i].len(), |j: int| next_at(u, i, j)))
}

/// The average of the four neighbours of a cell.
pub fn calculate_cell(up: u64, down: u64, left: u64, right: u64) -> (out: u64)
    ensures
        out == next_cell(up, down, left, right),
{
    fmul(QUARTER, fadd(fadd(fadd(up, down), left), right))
}

/// Solver for the Laplace equation by the point Jacobi scheme.
#[derive(Debug)]
pub struct PointJacobiSolver {
    u: StateGrid,
    n_iter_max: usize,
    epsilon: u64,
    n_iter: usize,
    executed: bool,
    converged: bool,
}

/// Parameters for a new `PointJacobiSolver`.
#[derive(Debug)]
pub struct PointJacobiSolverNewParams {
    /// Initial grid; its outer ring is the boundary condition.
    pub u_init: StateGrid,
    /// Iteration budget.
    pub n_iter_max: usize,
}

impl NewParams for PointJacobiSolverNewParams {
    open spec fn validity(&self) -> Result<(), ValidationError> {
        if self.u_init.nrows() == 0 || self.u_init.ncols() == 0 {
            Err(ValidationError::EmptyState)
        } else if self.n_iter_max == 0 {
            Err(ValidationError::IterMaxNotPositive)
        } else {
            Ok(())
        }
    }

    fn validate_new_params(&self) -> (r: Result<(), ValidationError>) {
        if self.u_init.rows() == 0 || self.u_init.cols() == 0 {
            return Err(ValidationError::EmptyState);
        }
        if self.n_iter_max == 0 {
            return Err(ValidationError::IterMaxNotPositive);
        }
        Ok(())
    }
}

impl PointJacobiSolver {
    /// A solver that has made no sweep, with the tolerance `1.0e-10`, or the
    /// first check that the parameters fail.
    pub fn new(new_params: PointJacobiSolverNewParams) -> (r: Result<Self, ValidationError>)
        ensures
            match new_params.validity() {
                Ok(()) => r matches Ok(solver) && {
                    &&& solver.wf()
                    &&& solver.model() == (Relaxation {
                        u: new_params.u_init@,
                        n_iter: 0,
                        n_iter_max: new_params.n_iter_max as nat,
                        epsilon: TOLERANCE,
                        executed: false,
                        converged: false,
                    })
                },
                Err(e) => r matches Err(x) && x == e,
            },
    {
        match new_params.validate_new_params() {
            Err(e) => {
                return Err(e);
            },
            Ok(()) => {},
        }
        Ok(
            PointJacobiSolver {
                u: new_params.u_init,
                n_iter_max: new_params.n_iter_max,
                epsilon: TOLERANCE,
                n_iter: 0,
                executed: false,
                converged: false,
            },
        )
    }

    fn iterate(&mut self)
        requires
            old(self).shaped(),
            old(self).n_iter < old(self).n_iter_max,
        ensures
            final(self).shaped(),
            final(self).u@ == next_u(old(self).u@),
            final(self).converged == settled(old(self).u@, next_u(old(self).u@), old(self).epsilon),
            final(self).n_iter == old(self).n_iter + 1,
            final(self).n_iter_max == old(self).n_iter_max,
            final(self).epsilon == old(self).epsilon,
            final(self).executed == old(self).executed,
    {
        let u_next = self.calculate_u_next();

        self.converged = has_settled(&self.u, &u_next, self.epsilon);
        self.u = u_next;
        self.n_iter += 1;
    }

    fn calculate_u_next(&self) -> (u_next: StateGrid)
        requires
            self.shaped(),
        ensures
            u_next@ == next_u(self.u@),
            u_next.ncols() == self.u.ncols(),
            has_shape(u_next@, self.u.nrows(), self.u.ncols()),
    {
        let rows: usize = self.u.rows();
        let cols: usize = self.u.cols();
        let mut u_next = grid_clone(&self.u);
        let mut i_x: usize = 1;
        while i_x < rows - 1
            invariant
                self.shaped(),
                self.u.rectangular(),
                rows == self.u.nrows(),
                cols == self.u.ncols(),
                u_next.ncols() == cols,
                has_shape(u_next@, rows as nat, cols as nat),
                1 <= i_x,
                forall|p: int, q: int|
                    0 <= p < rows && 0 <= q < cols ==> #[trigger] u_next@[p][q] == if p < i_x {
                        next_at(self.u@, p, q)
                    } else {
                        self.u@[p][q]
                    },
            decreases rows - i_x,
        {
            let mut i_y: usize = 1;
            while i_y < cols - 1
                invariant
                    self.shaped(),
                    self.u.rectangular(),
                    rows == self.u.nrows(),
                    cols == self.u.ncols(),
                    u_next.ncols() == cols,
                    has_shape(u_next@, rows as nat, cols as nat),
                    1 <= i_x < rows - 1,
                    1 <= i_y,
                    forall|p: int, q: int|
                        0 <= p < rows && 0 <= q < cols ==> #[trigger] u_next@[p][q] == if p < i_x
                            || (p == i_x && q < i_y) {
                            next_at(self.u@, p, q)
                        } else {
                            self.u@[p][q]
                        },
                decreases cols - i_y,
            {
                let cell: u64 = calculate_cell(
                    grid_get(&self.u, i_x - 1, i_y),
                    grid_get(&self.u, i_x + 1, i_y),
                    grid_get(&self.u, i_x, i_y - 1),
                    grid_get(&self.u, i_x, i_y + 1),
                );
                grid_set(&mut u_next, i_x, i_y, cell);
                i_y += 1;
            }
            i_x += 1;
        }
        assert(u_next@ =~~= next_u(self.u@));
        u_next
    }

    /// The grid has a row and a column.
    closed spec fn shaped(&self) -> bool {
        self.u.nrows() > 0 && self.u.ncols() > 0
    }
}

impl Solver for PointJacobiSolver {
    closed spec fn wf(&self) -> bool {
        &&& self.shaped()
        &&& self.n_iter_max > 0
        &&& self.n_iter <= self.n_iter_max
        &&& !self.executed ==> self.n_iter == 0 && !self.converged
    }

    closed spec fn model(&self) -> Relaxation {
        Relaxation {
            u: self.u@,
            n_iter: self.n_iter as nat,
            n_iter_max: self.n_iter_max as nat,
            epsilon: self.epsilon,
            executed: self.executed,
            converged: self.converged,
        }
    }

    open spec fn sweep(&self, u: Seq<Seq<u64>>) -> Seq<Seq<u64>> {
        next_u(u)
    }

    proof fn lemma_wf(&self) {
    }

    proof fn lemma_sweep(&self, u: Seq<Seq<u64>>) {
    }

    fn exec(&mut self) -> (r: Result<(), ExecutionError>) {
        let ghost sweep = |u: Seq<Seq<u64>>| old(self).sweep(u);
        proof {
            assert forall|v: Seq<Seq<u64>>| same_ring(v, #[trigger] sweep(v)) by {
                self.lemma_sweep(v);
            }
        }
        if self.executed {
            return Err(ExecutionError::AlreadyExecuted);
        }
        self.executed = true;
        let ghost start = self.model();
        proof {
            lemma_relaxed_counts(sweep, start);
            lemma_relaxed_keeps_ring(sweep, start);
        }

        while !self.converged
            invariant
                self.shaped(),
                self.executed,
                self.n_iter <= self.n_iter_max,
                self.n_iter_max > 0,
                !old(self).model().executed,
                start == (Relaxation { executed: true, ..old(self).model() }),
                sweep == |u: Seq<Seq<u64>>| old(self).sweep(u),
                relaxed(sweep, self.model()) == relaxed(sweep, start),
                same_ring(start.u, relaxed(sweep, start).u),
                !relaxed(sweep, start).converged ==> relaxed(sweep, start).n_iter
                    == start.n_iter_max,
                start.n_iter_max == self.n_iter_max,
            decreases self.n_iter_max - self.n_iter,
        {
            if self.n_iter >= self.n_iter_max {
                return Err(ExecutionError::MaxIterationsReached);
            }
            let ghost before = self.model();
            self.iterate();
            assert(relaxed(sweep, before) == relaxed(sweep, self.model())) by {
                assert(sweep(before.u) == next_u(before.u));
            }
        }
        Ok(())
    }

    fn borrow_u(&self) -> (u: &StateGrid) {
        &self.u
    }

    fn get_n_iter(&self) -> (n_iter: usize) {
        self.n_iter
    }
}

} // verus!
