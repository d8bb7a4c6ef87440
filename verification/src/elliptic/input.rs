//! The input parameters of a run, and their check.

use crate::double::{is_lt, lt, ONE, TWO};
use crate::error::ValidationError;
use crate::linear_hyperbolic::input::InputParams;
use vstd::prelude::*;

verus! {

/// Input parameters of a run of the point Jacobi scheme.
#[derive(Debug, Clone, Copy, PartialEq, Eq, Structural)]
pub struct ExecPointJacobiInputParams {
    /// Number of cells along x.
    pub n_x: usize,
    /// Number of cells along y.
    pub n_y: usize,
    /// Iteration budget.
    pub n_iter_max: usize,
}

impl InputParams for ExecPointJacobiInputParams {
    open spec fn validity(&self) -> Result<(), ValidationError> {
        if self.n_x == 0 {
            Err(ValidationError::CellsXNotPositive)
        } else if self.n_y == 0 {
            Err(ValidationError::CellsYNotPositive)
        } else if self.n_iter_max == 0 {
            Err(ValidationError::IterMaxNotPositive)
        } else {
            Ok(())
        }
    }

    fn validate_params(&self) -> (r: Result<(), ValidationError>) {
        if self.n_x == 0 {
            return Err(ValidationError::CellsXNotPositive);
        }
        if self.n_y == 0 {
            return Err(ValidationError::CellsYNotPositive);
        }
        if self.n_iter_max == 0 {
            return Err(ValidationError::IterMaxNotPositive);
        }
        Ok(())
    }
}

/// Input parameters of a run of the SOR scheme.
#[derive(Debug, Clone, Copy, PartialEq, Eq, Structural)]
pub struct ExecSorInputParams {
    /// Number of cells along x.
    pub n_x: usize,
    /// Number of cells along y.
    pub n_y: usize,
    /// Iteration budget.
    pub n_iter_max: usize,
    /// Relaxation factor.
    pub omega: u64,
}

impl InputParams for ExecSorInputParams {
    /// A relaxation factor that is a NaN passes.
    open spec fn validity(&self) -> Result<(), ValidationError> {
        if self.n_x == 0 {
            Err(ValidationError::CellsXNotPositive)
        } else if self.n_y == 0 {
            Err(ValidationError::CellsYNotPositive)
        } else if self.n_iter_max == 0 {
            Err(ValidationError::IterMaxNotPositive)
        } else if lt(self.omega, ONE) || lt(TWO, self.omega) {
            Err(ValidationError::RelaxationOutOfRange)
        } else {
            Ok(())
        }
    }

    fn validate_params(&self) -> (r: Result<(), ValidationError>) {
        if self.n_x == 0 {
            return Err(ValidationError::CellsXNotPositive);
        }
        if self.n_y == 0 {
            return Err(ValidationError::CellsYNotPositive);
        }
        if self.n_iter_max == 0 {
            return Err(ValidationError::IterMaxNotPositive);
        }
        if is_lt(self.omega, ONE) || is_lt(TWO, self.omega) {
            return Err(ValidationError::RelaxationOutOfRange);
        }
        Ok(())
    }
}

} // verus!
