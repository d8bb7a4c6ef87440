//! The input parameters of a run, and their check.

use crate::double::{is_le, le, ZERO};
use crate::error::ValidationError;
use vstd::prelude::*;

verus! {

/// Input parameters that can be checked before a run.
pub trait InputParams {
    /// The first check that fails, in the order they are made.
    spec fn validity(&self) -> Result<(), ValidationError>;

    /// Checks the parameters.
    fn validate_params(&self) -> (r: Result<(), ValidationError>)
        ensures
            r == self.validity(),
    ;
}

/// Input parameters of a run of the leap-frog scheme.
#[derive(Debug, Clone, Copy, PartialEq, Eq, Structural)]
pub struct ExecLeapfrogInputParams {
    /// Number of cells.
    pub n_x: usize,
    /// Step budget.
    pub step_max: usize,
    /// Courant number.
    pub n_cfl: u64,
    /// Number of steps between two outputs.
    pub ncycle_out: usize,
}

impl InputParams for ExecLeapfrogInputParams {
    /// A Courant number that is a NaN passes.
    open spec fn validity(&self) -> Result<(), ValidationError> {
        if self.n_x == 0 {
            Err(ValidationError::CellsXNotPositive)
        } else if self.step_max == 0 {
            Err(ValidationError::StepMaxNotPositive)
        } else if le(self.n_cfl, ZERO) {
            Err(ValidationError::CourantNotPositive)
        } else if self.ncycle_out == 0 {
            Err(ValidationError::OutputCycleNotPositive)
        } else {
            Ok(())
        }
    }

    fn validate_params(&self) -> (r: Result<(), ValidationError>) {
        if self.n_x == 0 {
            return Err(ValidationError::CellsXNotPositive);
        }
        if self.step_max == 0 {
            return Err(ValidationError::StepMaxNotPositive);
        }
        if is_le(self.n_cfl, ZERO) {
            return Err(ValidationError::CourantNotPositive);
        }
        if self.ncycle_out == 0 {
            return Err(ValidationError::OutputCycleNotPositive);
        }
        Ok(())
    }
}

} // verus!
