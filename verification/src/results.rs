//! Result records of solves, sweeps, optimetrics and exports, the SPICE
//! export options, the variables of a project, and the messages exchanged
//! with the solver worker.
use vstd::prelude::*;

use crate::design::{concat2, SolveStatus};
use vstd::string::*;

verus! {

/// A solved sweep of a setup.
#[derive(Debug, Clone)]
pub struct SweepSolutionResult {
    pub status: SolveStatus,
    pub num_frequency_points: Option<u32>,
    pub result_path: String,
}

/// The progress of an optimetrics setup.
#[derive(Debug, Clone)]
pub struct OptimetricsSolutionStatus {
    pub status: SolveStatus,
    pub total_variations: u32,
    pub completed_variations: u32,
    pub result_path: String,
}

/// A model export.
#[derive(Debug, Clone)]
pub struct ExportInfo {
    pub exported_at: String,
    pub model_type: String,
    pub file_path: String,
}

/// A solved variation: the variable values it was solved with, and where
/// its results are.
#[derive(Debug, Clone)]
pub struct VariationResult {
    pub variables: Vec<(String, String)>,
    pub result_path: String,
}

/// The topology of an exported equivalent circuit.
#[derive(Debug, Clone, Copy, PartialEq, Eq, Structural)]
pub enum SpiceModelType {
    /// Shunt, series, shunt.
    PiModel,
    /// Series, shunt, series.
    TModel,
}

/// Options of a SPICE netlist export.
#[derive(Debug, Clone, Copy)]
pub struct SpiceExportOptions {
    /// Which frequency point the lumped model is taken at.
    pub frequency_idx: usize,
    pub model_type: SpiceModelType,
    /// Whether mutual inductance coupling is included.
    pub include_mutual: bool,
}

impl Default for SpiceExportOptions {
    fn default() -> (r: Self)
        ensures
            r.frequency_idx == 0,
            r.model_type == SpiceModelType::PiModel,
            r.include_mutual,
    {
        SpiceExportOptions { frequency_idx: 0, model_type: SpiceModelType::PiModel, include_mutual: true }
    }
}

/// A project or design variable: a constant, an expression, or neither.
#[derive(Debug, Clone)]
pub struct Variable {
    /// A constant such as `2.4GHz`.
    pub value: Option<String>,
    /// An expression such as `($freq - 0.5GHz) * 2`.
    pub expression: Option<String>,
    pub description: String,
    /// `Frequency`, `Length`, `None`, ...
    pub unit_type: Option<String>,
}

/// How a dataset is interpolated.
#[derive(Debug, Clone, Copy, PartialEq, Eq, Structural)]
pub enum InterpolationType {
    PiecewiseLinear,
    CubicSpline,
    Debye,
    DjordjevicSarkar,
}

impl Default for InterpolationType {
    fn default() -> (r: Self)
        ensures
            r == InterpolationType::PiecewiseLinear,
    {
        InterpolationType::PiecewiseLinear
    }
}

/// A quantity derived from simulation results by an expression.
#[derive(Debug, Clone)]
pub struct OutputVariable {
    pub name: String,
    /// e.g. `dB(S(Port1,Port1))`.
    pub expression: String,
    pub description: String,
}

/// A stored project, as listed by the worker.
#[derive(Debug, Clone)]
pub struct ProjectEntry {
    pub id: String,
    pub title: String,
    /// Milliseconds since the Unix epoch.
    pub modified_at: u64,
}

/// A request to the solver worker; project data travels encoded.
#[derive(Debug, Clone)]
pub enum WorkerCommand {
    SaveProject { data: Vec<u8> },
    LoadProject { id: String },
    DeleteProject { id: String },
    ListProjects,
    Solve { data: Vec<u8> },
}

/// An answer of the solver worker.
#[derive(Debug, Clone)]
pub enum WorkerResponse {
    SaveOk,
    ProjectLoaded { data: Vec<u8> },
    ProjectNotFound { id: String },
    ProjectList { entries: Vec<ProjectEntry> },
    SolveResult { data: Vec<u8> },
    Error { message: String },
}

/// Why a geometry operation failed.
#[derive(Debug)]
pub enum GeometryError {
    ObjectNotFound(String),
    InvalidParameters { command: String, reason: String },
    BooleanFailed(String),
    BuildError(String),
    NotImplemented(String),
}

/// Why an optimization stopped without a result.
#[derive(Debug)]
pub enum OptimError {
    EvalFailed(String),
    InvalidBounds(String),
    MaxIterations,
}

/// Why a sensitivity analysis failed.
#[derive(Debug)]
pub enum SensitivityError {
    EvalFailed(String),
    VariableNotFound(String),
    InvalidVariation(String),
}

/// Why a statistical analysis failed.
#[derive(Debug)]
pub enum StatError {
    EvalFailed(String),
    VariableNotFound(String),
    InvalidDistribution(String),
}


/// The text of a geometry error.
pub open spec fn spec_geometry_message(e: GeometryError) -> Seq<char> {
    match e {
        GeometryError::ObjectNotFound(n) => "object not found: "@ + n@,
        GeometryError::InvalidParameters { command, reason } => "invalid parameters for "@ + command@ + ": "@
            + reason@,
        GeometryError::BooleanFailed(m) => "boolean operation failed: "@ + m@,
        GeometryError::BuildError(m) => "build error: "@ + m@,
        GeometryError::NotImplemented(m) => "not implemented: "@ + m@,
    }
}

impl GeometryError {
    /// The error's text.
    pub fn message(&self) -> (r: String)
        ensures
            r@ == spec_geometry_message(*self),
    {
        match self {
            GeometryError::ObjectNotFound(n) => concat2("object not found: ", n.as_str()),
            GeometryError::InvalidParameters { command, reason } => {
                let mut s = concat2("invalid parameters for ", command.as_str());
                s.append(": ");
                s.append(reason.as_str());
                s
            },
            GeometryError::BooleanFailed(m) => concat2("boolean operation failed: ", m.as_str()),
            GeometryError::BuildError(m) => concat2("build error: ", m.as_str()),
            GeometryError::NotImplemented(m) => concat2("not implemented: ", m.as_str()),
        }
    }
}

/// The text of an optimization error.
pub open spec fn spec_optim_message(e: OptimError) -> Seq<char> {
    match e {
        OptimError::EvalFailed(m) => "Evaluation failed: "@ + m@,
        OptimError::InvalidBounds(m) => "Invalid bounds: "@ + m@,
        OptimError::MaxIterations => "Max iterations reached"@,
    }
}

impl OptimError {
    /// The error's text.
    pub fn message(&self) -> (r: String)
        ensures
            r@ == spec_optim_message(*self),
    {
        match self {
            OptimError::EvalFailed(m) => concat2("Evaluation failed: ", m.as_str()),
            OptimError::InvalidBounds(m) => concat2("Invalid bounds: ", m.as_str()),
            OptimError::MaxIterations => String::from_str("Max iterations reached"),
        }
    }
}

/// The text of a sensitivity error.
pub open spec fn spec_sensitivity_message(e: SensitivityError) -> Seq<char> {
    match e {
        SensitivityError::EvalFailed(m) => "Evaluation failed: "@ + m@,
        SensitivityError::VariableNotFound(m) => "Variable not found: "@ + m@,
        SensitivityError::InvalidVariation(m) => "Invalid variation: "@ + m@,
    }
}

impl SensitivityError {
    /// The error's text.
    pub fn message(&self) -> (r: String)
        ensures
            r@ == spec_sensitivity_message(*self),
    {
        match self {
            SensitivityError::EvalFailed(m) => concat2("Evaluation failed: ", m.as_str()),
            SensitivityError::VariableNotFound(m) => concat2("Variable not found: ", m.as_str()),
            SensitivityError::InvalidVariation(m) => concat2("Invalid variation: ", m.as_str()),
        }
    }
}

/// The text of a statistical-analysis error.
pub open spec fn spec_stat_message(e: StatError) -> Seq<char> {
    match e {
        StatError::EvalFailed(m) => "Evaluation failed: "@ + m@,
        StatError::VariableNotFound(m) => "Variable not found: "@ + m@,
        StatError::InvalidDistribution(m) => "Invalid distribution: "@ + m@,
    }
}

impl StatError {
    /// The error's text.
    pub fn message(&self) -> (r: String)
        ensures
            r@ == spec_stat_message(*self),
    {
        match self {
            StatError::EvalFailed(m) => concat2("Evaluation failed: ", m.as_str()),
            StatError::VariableNotFound(m) => concat2("Variable not found: ", m.as_str()),
            StatError::InvalidDistribution(m) => concat2("Invalid distribution: ", m.as_str()),
        }
    }
}

} // verus!
