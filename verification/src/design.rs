//! The references that make up a design: what it defines (materials,
//! coordinate systems, named selections, variables, geometry objects) and
//! what refers to those definitions (objects to materials; boundaries,
//! excitations and Q3D nets to objects), plus its analysis setups.
use vstd::prelude::*;

use vstd::string::*;

use crate::solution_type::SolutionType;

verus! {

/// Kinds of boundary condition.
#[derive(Debug, Clone, Copy, PartialEq, Eq, Structural)]
pub enum BoundaryType {
    PerfectE,
    PerfectH,
    Impedance,
    FiniteConductivity,
    Symmetry,
    MasterSlave,
    Radiation,
    PML,
    ThinConductor,
    InfiniteGroundPlane,
    OpenBoundary,
}

/// What an assignment's targets are.
#[derive(Debug, Clone, Copy, PartialEq, Eq, Structural)]
pub enum AssignmentTarget {
    Object,
    Face,
    Edge,
}

/// Kinds of excitation (port or source).
#[derive(Debug, Clone, Copy, PartialEq, Eq, Structural)]
pub enum ExcitationType {
    WavePort,
    LumpedPort,
    FloquetPort,
    IncidentWave,
    VoltageDrop,
    Source,
    Sink,
}

/// Target assignment for boundaries, excitations and terminals: geometry
/// object names, or named selections written with a leading `@`.
#[derive(Debug, Clone)]
pub struct Assignment {
    pub target_type: AssignmentTarget,
    pub targets: Vec<String>,
}

/// A source or sink terminal within a Q3D net.
#[derive(Debug, Clone)]
pub struct Terminal {
    pub name: String,
    pub terminal_type: ExcitationType,
    pub assignment: Assignment,
}

/// A Q3D electrical network: conductor objects and terminals.
#[derive(Debug, Clone)]
pub struct Net {
    pub name: String,
    pub objects: Vec<String>,
    pub is_ground_reference: bool,
    pub terminals: Vec<Terminal>,
}

/// A geometry object: its name and its material.
#[derive(Debug, Clone)]
pub struct ObjectRef {
    pub name: String,
    pub material: String,
}

/// A boundary: its name and what it is assigned to.
#[derive(Debug, Clone)]
pub struct BoundaryRef {
    pub name: String,
    pub boundary_type: BoundaryType,
    pub assignment: Assignment,
}

/// An excitation: its name and, if assigned, what to.
#[derive(Debug, Clone)]
pub struct ExcitationRef {
    pub name: String,
    pub excitation_type: ExcitationType,
    pub assignment: Option<Assignment>,
}

/// Solve state of an analysis setup.
#[derive(Debug, Clone, Copy, PartialEq, Eq, Structural)]
pub enum SolveStatus {
    NotSolved,
    InProgress,
    Converged,
    NotConverged,
    Failed,
    Completed,
}

impl Default for SolveStatus {
    fn default() -> (r: Self)
        ensures
            r == SolveStatus::NotSolved,
    {
        SolveStatus::NotSolved
    }
}

/// The solve state of one analysis setup, keyed by the setup's name.
#[derive(Debug, Clone)]
pub struct SetupSolutionStatus {
    pub setup: String,
    pub status: SolveStatus,
    pub is_stale: bool,
}

/// The solve state of the analysis setups of a design.
#[derive(Debug, Clone)]
pub struct SolutionIndex {
    /// One entry per solved setup, keyed by setup name.
    pub setups: Vec<SetupSolutionStatus>,
    /// If set, why the results are stale.
    pub stale_reason: Option<String>,
}

/// The definitions and references of a design that validation and
/// dependency tracking read.
#[derive(Debug, Clone)]
pub struct DesignOutline {
    pub name: String,
    pub solution_type: SolutionType,
    pub materials: Vec<String>,
    pub coordinate_systems: Vec<String>,
    pub named_selections: Vec<String>,
    pub local_variables: Vec<String>,
    pub objects: Vec<ObjectRef>,
    pub boundaries: Vec<BoundaryRef>,
    pub excitations: Vec<ExcitationRef>,
    pub nets: Vec<Net>,
    pub analysis_setups: Vec<String>,
    pub solution_index: SolutionIndex,
}

// ---------------------------------------------------------------------------
// Views
// ---------------------------------------------------------------------------

/// The value of a list of strings.
pub open spec fn spec_strings(v: Seq<String>) -> Seq<Seq<char>> {
    v.map_values(|s: String| s@)
}

/// The mathematical value of an `Assignment`.
pub struct AssignmentModel {
    pub target_type: AssignmentTarget,
    pub targets: Seq<Seq<char>>,
}

/// The mathematical value of a `Terminal`.
pub struct TerminalModel {
    pub name: Seq<char>,
    pub terminal_type: ExcitationType,
    pub assignment: AssignmentModel,
}

/// The mathematical value of a `Net`.
pub struct NetModel {
    pub name: Seq<char>,
    pub objects: Seq<Seq<char>>,
    pub is_ground_reference: bool,
    pub terminals: Seq<TerminalModel>,
}

/// The mathematical value of an `ObjectRef`.
pub struct ObjectModel {
    pub name: Seq<char>,
    pub material: Seq<char>,
}

/// The mathematical value of a `BoundaryRef`.
pub struct BoundaryModel {
    pub name: Seq<char>,
    pub boundary_type: BoundaryType,
    pub assignment: AssignmentModel,
}

/// The mathematical value of an `ExcitationRef`.
pub struct ExcitationModel {
    pub name: Seq<char>,
    pub excitation_type: ExcitationType,
    pub assignment: Option<AssignmentModel>,
}

/// The mathematical value of a `SetupSolutionStatus`.
pub struct SetupStatusModel {
    pub setup: Seq<char>,
    pub status: SolveStatus,
    pub is_stale: bool,
}

/// The mathematical value of a `SolutionIndex`.
pub struct SolutionIndexModel {
    pub setups: Seq<SetupStatusModel>,
    pub stale_reason: Option<Seq<char>>,
}

impl View for SetupSolutionStatus {
    type V = SetupStatusModel;

    open spec fn view(&self) -> SetupStatusModel {
        SetupStatusModel { setup: self.setup@, status: self.status, is_stale: self.is_stale }
    }
}

impl View for SolutionIndex {
    type V = SolutionIndexModel;

    open spec fn view(&self) -> SolutionIndexModel {
        SolutionIndexModel {
            setups: self.setups@.map_values(|e: SetupSolutionStatus| e@),
            stale_reason: match self.stale_reason {
                Some(r) => Some(r@),
                None => None,
            },
        }
    }
}

/// The mathematical value of a `DesignOutline`.
pub struct DesignModel {
    pub name: Seq<char>,
    pub solution_type: SolutionType,
    pub materials: Seq<Seq<char>>,
    pub coordinate_systems: Seq<Seq<char>>,
    pub named_selections: Seq<Seq<char>>,
    pub local_variables: Seq<Seq<char>>,
    pub objects: Seq<ObjectModel>,
    pub boundaries: Seq<BoundaryModel>,
    pub excitations: Seq<ExcitationModel>,
    pub nets: Seq<NetModel>,
    pub analysis_setups: Seq<Seq<char>>,
    pub solution_index: SolutionIndexModel,
}

impl View for Assignment {
    type V = AssignmentModel;

    open spec fn view(&self) -> AssignmentModel {
        AssignmentModel { target_type: self.target_type, targets: spec_strings(self.targets@) }
    }
}

impl View for Terminal {
    type V = TerminalModel;

    open spec fn view(&self) -> TerminalModel {
        TerminalModel {
            name: self.name@,
            terminal_type: self.terminal_type,
            assignment: self.assignment@,
        }
    }
}

impl View for Net {
    type V = NetModel;

    open spec fn view(&self) -> NetModel {
        NetModel {
            name: self.name@,
            objects: spec_strings(self.objects@),
            is_ground_reference: self.is_ground_reference,
            terminals: self.terminals@.map_values(|t: Terminal| t@),
        }
    }
}

impl View for ObjectRef {
    type V = ObjectModel;

    open spec fn view(&self) -> ObjectModel {
        ObjectModel { name: self.name@, material: self.material@ }
    }
}

impl View for BoundaryRef {
    type V = BoundaryModel;

    open spec fn view(&self) -> BoundaryModel {
        BoundaryModel {
            name: self.name@,
            boundary_type: self.boundary_type,
            assignment: self.assignment@,
        }
    }
}

impl View for ExcitationRef {
    type V = ExcitationModel;

    open spec fn view(&self) -> ExcitationModel {
        ExcitationModel {
            name: self.name@,
            excitation_type: self.excitation_type,
            assignment: match self.assignment {
                Some(a) => Some(a@),
                None => None,
            },
        }
    }
}

impl View for DesignOutline {
    type V = DesignModel;

    open spec fn view(&self) -> DesignModel {
        DesignModel {
            name: self.name@,
            solution_type: self.solution_type,
            materials: spec_strings(self.materials@),
            coordinate_systems: spec_strings(self.coordinate_systems@),
            named_selections: spec_strings(self.named_selections@),
            local_variables: spec_strings(self.local_variables@),
            objects: self.objects@.map_values(|o: ObjectRef| o@),
            boundaries: self.boundaries@.map_values(|b: BoundaryRef| b@),
            excitations: self.excitations@.map_values(|e: ExcitationRef| e@),
            nets: self.nets@.map_values(|n: Net| n@),
            analysis_setups: spec_strings(self.analysis_setups@),
            solution_index: self.solution_index@,
        }
    }
}

/// Whether `s` is one of `v`.
pub fn contains_string(v: &Vec<String>, s: &str) -> (r: bool)
    ensures
        r == spec_strings(v@).contains(s@),
{
    let mut i: usize = 0;
    while i < v.len()
        invariant
            i <= v@.len(),
            forall|k: int| 0 <= k < i ==> v@[k]@ != s@,
        decreases v@.len() - i,
    {
        if crate::text::str_eq(v[i].as_str(), s) {
            assert(spec_strings(v@)[i as int] == s@);
            return true;
        }
        i = i + 1;
    }
    assert forall|k: int| 0 <= k < spec_strings(v@).len() implies spec_strings(v@)[k] != s@ by {
        assert(spec_strings(v@)[k] == v@[k]@);
    }
    false
}

/// A string made of two parts.
pub fn concat2(a: &str, b: &str) -> (r: String)
    ensures
        r@ == a@ + b@,
{
    let mut s = String::from_str(a);
    s.append(b);
    s
}

} // verus!
