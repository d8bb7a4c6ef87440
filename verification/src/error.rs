//! What a solver returns in place of a result.

use vstd::prelude::*;

verus! {

/// A parameter that a constructor or an input check refuses. Which numbers
/// each check refuses, a NaN among them or not, is said where the check is
/// made.
#[derive(Debug, Clone, Copy, PartialEq, Eq, Structural)]
pub enum ValidationError {
    /// The initial state holds no cell.
    EmptyState,
    /// The step budget is zero.
    StepMaxNotPositive,
    /// The iteration budget is zero.
    IterMaxNotPositive,
    /// The Courant number is not positive.
    CourantNotPositive,
    /// The diffusion number is not positive.
    DiffusionNotPositive,
    /// The weighting factor is not in `[0, 1]`.
    WeightOutOfRange,
    /// The relaxation factor is not in `[1, 2]`.
    RelaxationOutOfRange,
    /// The advection velocity is not positive.
    VelocityNotPositive,
    /// The number of cells along x is zero.
    CellsXNotPositive,
    /// The number of cells along y is zero.
    CellsYNotPositive,
    /// The end time is less than the time step.
    EndTimeBeforeFirstStep,
    /// The time step is not positive.
    TimeStepNotPositive,
    /// The number of steps between two outputs is zero.
    OutputCycleNotPositive,
}

/// A step was asked of a time-stepper that has used up its budget.
#[derive(Debug, Clone, Copy, PartialEq, Eq, Structural)]
pub enum CompletionError {
    /// The calculation has already been completed.
    AlreadyCompleted,
}

/// Why a relaxation solver did not run to convergence.
#[derive(Debug, Clone, Copy, PartialEq, Eq, Structural)]
pub enum ExecutionError {
    /// The solver has already been executed.
    AlreadyExecuted,
    /// The iteration budget was used up before the grid settled.
    MaxIterationsReached,
}

/// A right-hand side whose length is not the number of unknowns.
#[derive(Debug, Clone, Copy, PartialEq, Eq, Structural)]
pub struct LengthMismatchError {
    /// The number of unknowns.
    pub expected: usize,
    /// The length of the right-hand side.
    pub found: usize,
}

impl ValidationError {
    /// The text of the message.
    pub open spec fn text(self) -> Seq<char> {
        match self {
            ValidationError::EmptyState => "u must not be empty"@,
            ValidationError::StepMaxNotPositive => "step_max must be positive"@,
            ValidationError::IterMaxNotPositive => "n_iter_max must be positive"@,
            ValidationError::CourantNotPositive => "n_cfl must be positive"@,
            ValidationError::DiffusionNotPositive => "mu must be positive"@,
            ValidationError::WeightOutOfRange => "lambda must be between 0 and 1"@,
            ValidationError::RelaxationOutOfRange => "omega must be between 1 and 2"@,
            ValidationError::VelocityNotPositive => "v_adv must be positive"@,
            ValidationError::CellsXNotPositive => "n_x must be positive"@,
            ValidationError::CellsYNotPositive => "n_y must be positive"@,
            ValidationError::EndTimeBeforeFirstStep => "t_max must be greater than or equal to dt"@,
            ValidationError::TimeStepNotPositive => "dt must be positive"@,
            ValidationError::OutputCycleNotPositive => "ncycle_out must be positive"@,
        }
    }

    /// The message for a person to read.
    pub fn message(&self) -> (s: &'static str)
        ensures
            s@ == self.text(),
    {
        match self {
            ValidationError::EmptyState => "u must not be empty",
            ValidationError::StepMaxNotPositive => "step_max must be positive",
            ValidationError::IterMaxNotPositive => "n_iter_max must be positive",
            ValidationError::CourantNotPositive => "n_cfl must be positive",
            ValidationError::DiffusionNotPositive => "mu must be positive",
            ValidationError::WeightOutOfRange => "lambda must be between 0 and 1",
            ValidationError::RelaxationOutOfRange => "omega must be between 1 and 2",
            ValidationError::VelocityNotPositive => "v_adv must be positive",
            ValidationError::CellsXNotPositive => "n_x must be positive",
            ValidationError::CellsYNotPositive => "n_y must be positive",
            ValidationError::EndTimeBeforeFirstStep => "t_max must be greater than or equal to dt",
            ValidationError::TimeStepNotPositive => "dt must be positive",
            ValidationError::OutputCycleNotPositive => "ncycle_out must be positive",
        }
    }
}

impl CompletionError {
    /// The text of the message.
    pub open spec fn text(self) -> Seq<char> {
        "calculation has already been completed"@
    }

    /// The message for a person to read.
    pub fn message(&self) -> (s: &'static str)
        ensures
            s@ == self.text(),
    {
        "calculation has already been completed"
    }
}

impl ExecutionError {
    /// The text of the message.
    pub open spec fn text(self) -> Seq<char> {
        match self {
            ExecutionError::AlreadyExecuted => "solver has already been executed"@,
            ExecutionError::MaxIterationsReached => "maximum number of iterations reached"@,
        }
    }

    /// The message for a person to read.
    pub fn message(&self) -> (s: &'static str)
        ensures
            s@ == self.text(),
    {
        match self {
            ExecutionError::AlreadyExecuted => "solver has already been executed",
            ExecutionError::MaxIterationsReached => "maximum number of iterations reached",
        }
    }
}

impl LengthMismatchError {
    /// The text of the message.
    pub open spec fn text(self) -> Seq<char> {
        "The length of vec_rhs must be equal to the length of mat_coef"@
    }

    /// The message for a person to read.
    pub fn message(&self) -> (s: &'static str)
        ensures
            s@ == self.text(),
    {
        "The length of vec_rhs must be equal to the length of mat_coef"
    }
}

} // verus!
