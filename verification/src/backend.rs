//! How the application runs (locally, against a cloud endpoint, or local
//! first in a browser), and the cloud backend's own answers.
use vstd::prelude::*;
use vstd::string::*;

use crate::design::concat2;

verus! {

/// Where projects are kept and solved.
#[derive(Debug, Clone, Copy, PartialEq, Eq, Structural)]
pub enum RunMode {
    Standalone,
    Cloud,
    /// Browser storage and a solver in a web worker.
    LocalFirst,
}

impl Default for RunMode {
    fn default() -> (r: Self)
        ensures
            r == RunMode::Standalone,
    {
        RunMode::Standalone
    }
}

/// Why a backend operation failed.
#[derive(Debug)]
pub enum BackendError {
    ProjectNotFound(String),
    IoError(String),
    SerializeError(String),
    DeserializeError(String),
}

/// The text of a backend error, as shown to the user.
pub open spec fn spec_backend_error_message(e: BackendError) -> Seq<char> {
    match e {
        BackendError::ProjectNotFound(m) => "project not found: "@ + m@,
        BackendError::IoError(m) => "IO error: "@ + m@,
        BackendError::SerializeError(m) => "serialize error: "@ + m@,
        BackendError::DeserializeError(m) => "deserialize error: "@ + m@,
    }
}

impl BackendError {
    /// The text of this error, as shown to the user.
    pub fn message(&self) -> (r: String)
        ensures
            r@ == spec_backend_error_message(*self),
    {
        match self {
            BackendError::ProjectNotFound(m) => concat2("project not found: ", m.as_str()),
            BackendError::IoError(m) => concat2("IO error: ", m.as_str()),
            BackendError::SerializeError(m) => concat2("serialize error: ", m.as_str()),
            BackendError::DeserializeError(m) => concat2("deserialize error: ", m.as_str()),
        }
    }
}

/// The label of a run mode: `standalone`, `cloud` or `local-first`.
pub open spec fn spec_mode_label(mode: RunMode) -> Seq<char> {
    match mode {
        RunMode::Standalone => "standalone"@,
        RunMode::Cloud => "cloud"@,
        RunMode::LocalFirst => "local-first"@,
    }
}

/// The label of a run mode.
pub fn mode_label(mode: RunMode) -> (r: &'static str)
    ensures
        r@ == spec_mode_label(mode),
{
    match mode {
        RunMode::Standalone => "standalone",
        RunMode::Cloud => "cloud",
        RunMode::LocalFirst => "local-first",
    }
}

/// The state of a simulation.
#[derive(Debug, Clone, Copy, PartialEq, Eq, Structural)]
pub enum SimulationStatus {
    Idle,
    Solving,
    Finished,
    Failed,
}

/// What a solve returns.
#[derive(Debug, Clone)]
pub struct SolveResult {
    pub field_preview: String,
    pub converged: bool,
}

/// A backend that hands projects to a remote endpoint.
pub struct CloudBackend {
    endpoint: String,
}

impl CloudBackend {
    /// The endpoint's address.
    pub closed spec fn spec_endpoint(&self) -> Seq<char> {
        self.endpoint@
    }

    /// A backend for `endpoint`.
    pub fn new(endpoint: &str) -> (r: Self)
        ensures
            r.spec_endpoint() == endpoint@,
    {
        CloudBackend { endpoint: String::from_str(endpoint) }
    }

    /// The endpoint's address.
    pub fn endpoint(&self) -> (r: &str)
        ensures
            r@ == self.spec_endpoint(),
    {
        self.endpoint.as_str()
    }

    /// This backend runs in cloud mode.
    pub fn mode(&self) -> (r: RunMode)
        ensures
            r == RunMode::Cloud,
    {
        RunMode::Cloud
    }

    /// The title of a project loaded from the endpoint:
    /// `Cloud Project @ <endpoint>`.
    pub fn project_title(&self) -> (r: String)
        ensures
            r@ == "Cloud Project @ "@ + self.spec_endpoint(),
    {
        concat2("Cloud Project @ ", self.endpoint.as_str())
    }

    /// The answer to a solve of the project titled `title`: a converged
    /// placeholder that names the project and the endpoint.
    pub fn solve(&self, title: &str) -> (r: SolveResult)
        ensures
            r.converged,
            r.field_preview@ == "Cloud placeholder solve for '"@ + title@ + "' via "@ + self.spec_endpoint(),
    {
        let mut s = concat2("Cloud placeholder solve for '", title);
        s.append("' via ");
        s.append(self.endpoint.as_str());
        SolveResult { field_preview: s, converged: true }
    }
}

} // verus!
