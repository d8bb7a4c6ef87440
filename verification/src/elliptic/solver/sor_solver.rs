//! The SOR scheme (successive over-relaxation) for the Laplace equation.
//!
//! With the relaxation factor `omega`, a sweep visits the interior cells row
//! by row, each row in column order, and replaces each cell in place by
//!
//! ```text
//! (1 - omega) u[j][k] + omega/4 (u[j-1][k]' + u[j+1][k] + u[j][k-1]' + u[j][k+1])
//! ```
//!
//! where a primed neighbour was visited earlier in the same sweep and has
//! its new value already. The outer ring of the grid is fixed.

use super::{
    has_settled, has_shape, is_interior, lemma_relaxed_counts, lemma_relaxed_keeps_ring, relaxed,
    same_ring, settled, NewParams, Relaxation, Solver,
};
use crate::double::{
    fadd, fdiff, fmul, fprod, fsub, fsum, is_le, le, ONE, QUARTER, TOLERANCE, TWO,
};
use crate::error::{ExecutionError, ValidationError};
use crate::state::{grid_clone, grid_get, grid_set, StateGrid};
use vstd::prelude::*;

verus! {

/// The new value of the cell `here`: its old value blended with the average
/// of its four neighbours as the sweep finds them.
pub open spec fn next_cell(
    omega: u64,
    here: u64,
    up: u64,
    down: u64,
    left: u64,
    right: u64,
) -> u64 {
    fsum(
        fprod(fdiff(ONE, omega), here),
        fprod(fprod(QUARTER, omega), fsum(fsum(fsum(up, down), left), right)),
    )
}

/// The cell at `(i, j)` after a sweep over `u`: the neighbours above and to
/// the left have been swept before it, those below and to the right have
/// not.
pub open spec fn next_at(u: Seq<Seq<u64>>, omega: u64, i: int, j: int) -> u64
    decreases i, j,
{
    if is_interior(u.len(), u[i].len(), i, j) {
        next_cell(
            omega,
            u[i][j],
            next_at(u, omega, i - 1, j),
            u[i + 1][j],
            next_at(u, omega, i, j - 1),
            u[i][j + 1],
        )
    } else {
        u[i][j]
    }
}

/// The grid after a sweep over `u`.
pub open spec fn next_u(u: Seq<Seq<u64>>, omega: u64) -> Seq<Seq<u64>> {
    Seq::new(u.len(), |i: int| Seq::new(u[i].len(), |j: int| next_at(u, omega, i, j)))
}

/// The new value of the cell `here`: its old value blended with the average
/// of its four neighbours as the sweep finds them.
pub fn calculate_cell(
    omega: u64,
    here: u64,
    up: u64,
    down: u64,
    left: u64,
    right: u64,
) -> (out: u64)
    ensures
        out == next_cell(omega, here, up, down, left, right),
{
    fadd(
        fmul(fsub(ONE, omega), here),
        fmul(fmul(QUARTER, omega), fadd(fadd(fadd(up, down), left), right)),
    )
}

/// Solver for the Laplace equation by the SOR scheme.
#[derive(Debug)]
pub struct SorSolver {
    u: StateGrid,
    n_iter_max: usize,
    omega: u64,
    epsilon: u64,
    n_iter: usize,
    executed: bool,
    converged: bool,
}

/// Parameters for a new `SorSolver`.
#[derive(Debug)]
pub struct SorSolverNewParams {
    /// Initial grid; its outer ring is the boundary condition.
    pub u_init: StateGrid,
    /// Iteration budget.
    pub n_iter_max: usize,
    /// Relaxation factor.
    pub omega: u64,
}

impl NewParams for SorSolverNewParams {
    open spec fn validity(&self) -> Result<(), ValidationError> {
        if self.u_init.nrows() == 0 || self.u_init.ncols() == 0 {
            Err(ValidationError::EmptyState)
        } else if self.n_iter_max == 0 {
            Err(ValidationError::IterMaxNotPositive)
        } else if !(le(ONE, self.omega) && le(self.omega, TWO)) {
            Err(ValidationError::RelaxationOutOfRange)
        } else {
            Ok(())
        }
    }

    fn validate_new_params(&self) -> (r: Result<(), ValidationError>) {
        if self.u_init.rows() == 0 || self.u_init.cols() == 0 {
            return Err(ValidationError::EmptyState);
        }
        if self.n_iter_max == 0 {
            return Err(ValidationError::IterMaxNotPositive);
        }
        if !(is_le(ONE, self.omega) && is_le(self.omega, TWO)) {
            return Err(ValidationError::RelaxationOutOfRange);
        }
        Ok(())
    }
}

impl SorSolver {
    /// The relaxation factor.
    pub closed spec fn omega(&self) -> u64 {
        self.omega
    }

    /// A solver that has made no sweep, with the tolerance `1.0e-10`, or the
    /// first check that the parameters fail.
    pub fn new(new_params: SorSolverNewParams) -> (r: Result<Self, ValidationError>)
        ensures
            match new_params.validity() {
                Ok(()) => r matches Ok(solver) && {
                    &&& solver.wf()
                    &&& solver.model() == (Relaxation {
                        u: new_params.u_init@,
                        n_iter: 0,
                        n_iter_max: new_params.n_iter_max as nat,
                        epsilon: TOLERANCE,
                        executed: false,
                        converged: false,
                    })
                    &&& solver.omega() == new_params.omega
                },
                Err(e) => r matches Err(x) && x == e,
            },
    {
        match new_params.validate_new_params() {
            Err(e) => {
                return Err(e);
            },
            Ok(()) => {},
        }
        Ok(
            SorSolver {
                u: new_params.u_init,
                n_iter_max: new_params.n_iter_max,
                omega: new_params.omega,
                epsilon: TOLERANCE,
                n_iter: 0,
                executed: false,
                converged: false,
            },
        )
    }

    fn iterate(&mut self)
        requires
            old(self).shaped(),
            old(self).n_iter < old(self).n_iter_max,
        ensures
            final(self).shaped(),
            final(self).u@ == next_u(old(self).u@, old(self).omega),
            final(self).converged == settled(
                old(self).u@,
                next_u(old(self).u@, old(self).omega),
                old(self).epsilon,
            ),
            final(self).n_iter == old(self).n_iter + 1,
            final(self).n_iter_max == old(self).n_iter_max,
            final(self).epsilon == old(self).epsilon,
            final(self).executed == old(self).executed,
            final(self).omega == old(self).omega,
    {
        let u_next = self.calculate_u_next();

        self.converged = has_settled(&self.u, &u_next, self.epsilon);
        self.u = u_next;
        self.n_iter += 1;
    }

    fn calculate_u_next(&self) -> (u_next: StateGrid)
        requires
            self.shaped(),
        ensures
            u_next@ == next_u(self.u@, self.omega),
            u_next.ncols() == self.u.ncols(),
            has_shape(u_next@, self.u.nrows(), self.u.ncols()),
    {
        let rows: usize = self.u.rows();
        let cols: usize = self.u.cols();
        let mut u_next = grid_clone(&self.u);
        let mut i_x: usize = 1;
        while i_x < rows - 1
            invariant
                self.shaped(),
                self.u.rectangular(),
                rows == self.u.nrows(),
                cols == self.u.ncols(),
                u_next.ncols() == cols,
                has_shape(u_next@, rows as nat, cols as nat),
                1 <= i_x,
                forall|p: int, q: int|
                    0 <= p < rows && 0 <= q < cols ==> #[trigger] u_next@[p][q] == if p < i_x {
                        next_at(self.u@, self.omega, p, q)
                    } else {
                        self.u@[p][q]
                    },
            decreases rows - i_x,
        {
            let mut i_y: usize = 1;
            while i_y < cols - 1
                invariant
                    self.shaped(),
                    self.u.rectangular(),
                    rows == self.u.nrows(),
                    cols == self.u.ncols(),
                    u_next.ncols() == cols,
                    has_shape(u_next@, rows as nat, cols as nat),
                    1 <= i_x < rows - 1,
                    1 <= i_y,
                    forall|p: int, q: int|
                        0 <= p < rows && 0 <= q < cols ==> #[trigger] u_next@[p][q] == if p < i_x
                            || (p == i_x && q < i_y) {
                            next_at(self.u@, self.omega, p, q)
                        } else {
                            self.u@[p][q]
                        },
                decreases cols - i_y,
            {
                let cell: u64 = calculate_cell(
                    self.omega,
                    grid_get(&u_next, i_x, i_y),
                    grid_get(&u_next, i_x - 1, i_y),
                    grid_get(&u_next, i_x + 1, i_y),
                    grid_get(&u_next, i_x, i_y - 1),
                    grid_get(&u_next, i_x, i_y + 1),
                );
                grid_set(&mut u_next, i_x, i_y, cell);
                i_y += 1;
            }
            i_x += 1;
        }
        assert(u_next@ =~~= next_u(self.u@, self.omega));
        u_next
    }

    /// The grid has a row and a column.
    closed spec fn shaped(&self) -> bool {
        self.u.nrows() > 0 && self.u.ncols() > 0
    }
}

impl Solver for SorSolver {
    closed spec fn wf(&self) -> bool {
        &&& self.shaped()
        &&& self.n_iter_max > 0
        &&& self.n_iter <= self.n_iter_max
        &&& !self.executed ==> self.n_iter == 0 && !self.converged
    }

    closed spec fn model(&self) -> Relaxation {
        Relaxation {
            u: self.u@,
            n_iter: self.n_iter as nat,
            n_iter_max: self.n_iter_max as nat,
            epsilon: self.epsilon,
            executed: self.executed,
            converged: self.converged,
        }
    }

    open spec fn sweep(&self, u: Seq<Seq<u64>>) -> Seq<Seq<u64>> {
        next_u(u, self.omega())
    }

    proof fn lemma_wf(&self) {
    }

    proof fn lemma_sweep(&self, u: Seq<Seq<u64>>) {
    }

    fn exec(&mut self) -> (r: Result<(), ExecutionError>) {
        let ghost sweep = |u: Seq<Seq<u64>>| old(self).sweep(u);
        proof {
            assert forall|v: Seq<Seq<u64>>| same_ring(v, #[trigger] sweep(v)) by {
                self.lemma_sweep(v);
            }
        }
        if self.executed {
            return Err(ExecutionError::AlreadyExecuted);
        }
        self.executed = true;
        let ghost start = self.model();
        proof {
            lemma_relaxed_counts(sweep, start);
            lemma_relaxed_keeps_ring(sweep, start);
        }

        while !self.converged
            invariant
                self.shaped(),
                self.executed,
                self.n_iter <= self.n_iter_max,
                self.n_iter_max > 0,
                !old(self).model().executed,
                start == (Relaxation { executed: true, ..old(self).model() }),
                sweep == |u: Seq<Seq<u64>>| old(self).sweep(u),
                self.omega == old(self).omega,
                relaxed(sweep, self.model()) == relaxed(sweep, start),
                same_ring(start.u, relaxed(sweep, start).u),
                !relaxed(sweep, start).converged ==> relaxed(sweep, start).n_iter
                    == start.n_iter_max,
                start.n_iter_max == self.n_iter_max,
            decreases self.n_iter_max - self.n_iter,
        {
            if self.n_iter >= self.n_iter_max {
                return Err(ExecutionError::MaxIterationsReached);
            }
            let ghost before = self.model();
            self.iterate();
            assert(relaxed(sweep, before) == relaxed(sweep, self.model())) by {
                assert(sweep(before.u) == next_u(before.u, self.omega));
            }
        }
        Ok(())
    }

    fn borrow_u(&self) -> (u: &StateGrid) {
        &self.u
    }

    fn get_n_iter(&self) -> (n_iter: usize) {
        self.n_iter
    }
}

} // verus!
