//! The input parameters of a run, and their check.

use crate::double::{is_le, is_lt, le, lt, ONE, ZERO};
use crate::error::ValidationError;
use crate::linear_hyperbolic::input::InputParams;
use vstd::prelude::*;

verus! {

/// Input parameters of a run of the Beam-Warming scheme.
#[derive(Debug, Clone, Copy, PartialEq, Eq, Structural)]
pub struct ExecBeamwarmingInputParams {
    /// Number of cells.
    pub n_x: usize,
    /// Step budget.
    pub step_max: usize,
    /// Diffusion number.
    pub mu: u64,
    /// Weighting factor.
    pub lambda: u64,
    /// Number of steps between two outputs.
    pub ncycle_out: usize,
}

impl InputParams for ExecBeamwarmingInputParams {
    /// A diffusion number or a weighting factor that is a NaN passes.
    open spec fn validity(&self) -> Result<(), ValidationError> {
        if self.n_x == 0 {
            Err(ValidationError::CellsXNotPositive)
        } else if self.step_max == 0 {
            Err(ValidationError::StepMaxNotPositive)
        } else if le(self.mu, ZERO) {
            Err(ValidationError::DiffusionNotPositive)
        } else if lt(self.lambda, ZERO) || lt(ONE, self.lambda) {
            Err(ValidationError::WeightOutOfRange)
        } else if self.ncycle_out == 0 {
            Err(ValidationError::OutputCycleNotPositive)
        } else {
            Ok(())
        }
    }

    fn validate_params(&self) -> (r: Result<(), ValidationError>) {
        if self.n_x == 0 {
            return Err(ValidationError::CellsXNotPositive);
        }
        if self.step_max == 0 {
            return Err(ValidationError::StepMaxNotPositive);
        }
        if is_le(self.mu, ZERO) {
            return Err(ValidationError::DiffusionNotPositive);
        }
        if is_lt(self.lambda, ZERO) || is_lt(ONE, self.lambda) {
            return Err(ValidationError::WeightOutOfRange);
        }
        if self.ncycle_out == 0 {
            return Err(ValidationError::OutputCycleNotPositive);
        }
        Ok(())
    }
}

} // verus!
