//! The input parameters of a run, and their check.

use crate::double::{is_le, is_lt, le, lt, ZERO};
use crate::error::ValidationError;
use vstd::prelude::*;

verus! {

/// Input parameters.
#[derive(Debug, Clone, Copy, PartialEq, Eq, Structural)]
pub struct InputParams {
    /// Advection velocity.
    pub v_adv: u64,
    /// Number of cells.
    pub n_x: usize,
    /// End time.
    pub t_max: u64,
    /// Time step.
    pub dt: u64,
    /// Number of steps between two outputs.
    pub ncycle_out: usize,
}

impl InputParams {
    /// The first check that fails, in the order they are made. A NaN fails
    /// none of them.
    pub open spec fn validity(&self) -> Result<(), ValidationError> {
        if le(self.v_adv, ZERO) {
            Err(ValidationError::VelocityNotPositive)
        } else if self.n_x == 0 {
            Err(ValidationError::CellsXNotPositive)
        } else if lt(self.t_max, self.dt) {
            Err(ValidationError::EndTimeBeforeFirstStep)
        } else if le(self.dt, ZERO) {
            Err(ValidationError::TimeStepNotPositive)
        } else if self.ncycle_out == 0 {
            Err(ValidationError::OutputCycleNotPositive)
        } else {
            Ok(())
        }
    }

    /// Checks the parameters.
    pub fn validate_params(&self) -> (r: Result<(), ValidationError>)
        ensures
            r == self.validity(),
    {
        if is_le(self.v_adv, ZERO) {
            return Err(ValidationError::VelocityNotPositive);
        }
        if self.n_x == 0 {
            return Err(ValidationError::CellsXNotPositive);
        }
        if is_lt(self.t_max, self.dt) {
            return Err(ValidationError::EndTimeBeforeFirstStep);
        }
        if is_le(self.dt, ZERO) {
            return Err(ValidationError::TimeStepNotPositive);
        }
        if self.ncycle_out == 0 {
            return Err(ValidationError::OutputCycleNotPositive);
        }
        Ok(())
    }
}

} // verus!
