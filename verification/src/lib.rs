//! A forward (explicit) Euler solver for first-order ordinary differential
//! equations dy/dt = f(t, y) over a fixed time interval.
//!
//! The right-hand side f is compiled from a textual expression over the
//! variables `t` and `y`; the solver builds a uniform time mesh and advances
//! the solution with the Euler update rule, exposing both as ordered tables.
//! Real numbers are carried as the bit patterns of doubles ([`num::Real`]);
//! every numeric operation is delegated to the expression evaluator, and the
//! contracts pin each mesh point and solution value to a recurrence over
//! uninterpreted functions of those bit patterns.

use vstd::prelude::*;

pub mod expr;
pub mod num;
pub mod solver;

pub use crate::expr::{parse_expression, OdeFunction};
pub use crate::num::Real;
pub use crate::solver::EulerSolver1D;

verus! {

/// The ways a run can fail.
#[derive(Clone, Copy, PartialEq, Eq, Structural, Debug)]
pub enum SolverError {
    /// The expression text is not syntactically valid.
    ParseError,
    /// A structurally required value is malformed; a step count of zero.
    InvalidConfiguration,
    /// Evaluating a successfully compiled expression failed, as it does when
    /// the expression names a variable other than `t` and `y`.
    EvaluationError,
    /// The output destination could not be written.
    IOError,
}

/// Configuration of the mesh: the time domain and its discretisation.
#[derive(Clone, Copy, Debug)]
pub struct MeshConfig {
    pub n: usize,
    pub domain_start: Real,
    pub domain_end: Real,
}

/// Configuration of the initial condition y(t_start).
#[derive(Clone, Copy, Debug)]
pub struct InitialConditions {
    pub y_0: Real,
}

/// Configuration of the ODE right-hand side: its textual expression.
#[derive(Clone, Debug)]
pub struct OdeConfig {
    pub expression: String,
}

/// Configuration of the output: the path of the CSV file to write.
#[derive(Clone, Debug)]
pub struct OutputConfig {
    pub csv_file: String,
}

/// The aggregated solver configuration, as a caller assembles it.
#[derive(Clone, Debug)]
pub struct SolverConfig {
    pub mesh_1_d: MeshConfig,
    pub initial_conditions: InitialConditions,
    pub ode_function: OdeConfig,
    pub output: OutputConfig,
}

} // verus!
