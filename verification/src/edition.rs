//! Product editions and the features each one enables.
use vstd::prelude::*;

use crate::solution_type::SolutionType;

verus! {

/// Product edition controlling feature availability.
///
/// - Basic: limited HFSS (Driven Modal only) and Q3D (Capacitance only), one setup.
/// - Professional: full HFSS and Q3D, unlimited setups.
/// - Enterprise: Professional plus Optimetrics and distributed solving.
#[derive(Debug, Clone, Copy, PartialEq, Eq, Structural)]
pub enum Edition {
    Basic,
    Professional,
    Enterprise,
}

impl Edition {
    /// The solution types this edition permits.
    pub open spec fn spec_allows_solution_type(self, st: SolutionType) -> bool {
        match self {
            Edition::Basic => st is DrivenModal || st is Q3D_C,
            _ => true,
        }
    }

    /// Whether this edition permits the given solution type.
    pub fn allows_solution_type(&self, st: SolutionType) -> (r: bool)
        ensures
            r == self.spec_allows_solution_type(st),
    {
        match self {
            Edition::Basic => match st {
                SolutionType::DrivenModal | SolutionType::Q3D_C => true,
                _ => false,
            },
            Edition::Professional | Edition::Enterprise => true,
        }
    }

    /// "Solve All" is available beyond Basic.
    pub open spec fn spec_allows_solve_all(self) -> bool {
        !(self is Basic)
    }

    /// Optimetrics is an Enterprise feature.
    pub open spec fn spec_allows_optimetrics(self) -> bool {
        self is Enterprise
    }

    /// Distributed solving is an Enterprise feature.
    pub open spec fn spec_allows_distributed_solve(self) -> bool {
        self is Enterprise
    }

    /// The name shown to the user.
    pub open spec fn spec_display_name(self) -> Seq<char> {
        match self {
            Edition::Basic => "Basic"@,
            Edition::Professional => "Professional"@,
            Edition::Enterprise => "Enterprise"@,
        }
    }

    /// Basic is limited to one setup; the others are unlimited.
    pub open spec fn spec_max_setups(self) -> Option<usize> {
        if self is Basic {
            Some(1usize)
        } else {
            None
        }
    }

    /// Whether "Solve All" (analyze all setups) is available.
    pub fn allows_solve_all(&self) -> (r: bool)
        ensures
            r == self.spec_allows_solve_all(),
    {
        match self {
            Edition::Basic => false,
            _ => true,
        }
    }

    /// Whether the Optimetrics module is available.
    pub fn allows_optimetrics(&self) -> (r: bool)
        ensures
            r == self.spec_allows_optimetrics(),
    {
        match self {
            Edition::Enterprise => true,
            _ => false,
        }
    }

    /// Whether distributed (multi-machine) solving is available.
    pub fn allows_distributed_solve(&self) -> (r: bool)
        ensures
            r == self.spec_allows_distributed_solve(),
    {
        match self {
            Edition::Enterprise => true,
            _ => false,
        }
    }

    /// Maximum number of analysis setups allowed; `None` means unlimited.
    pub fn max_setups(&self) -> (r: Option<usize>)
        ensures
            r == self.spec_max_setups(),
    {
        match self {
            Edition::Basic => Some(1),
            _ => None,
        }
    }

    /// Human-readable name for display.
    pub fn display_name(&self) -> (r: &'static str)
        ensures
            r@ == self.spec_display_name(),
    {
        match self {
            Edition::Basic => "Basic",
            Edition::Professional => "Professional",
            Edition::Enterprise => "Enterprise",
        }
    }

}

impl Default for Edition {
    /// Professional is the default edition.
    fn default() -> (r: Edition)
        ensures
            r is Professional,
    {
        Edition::Professional
    }
}

/// The editions are ordered by what they allow: whatever Basic allows,
/// Professional allows, and whatever Professional allows, Enterprise allows.
pub proof fn lemma_editions_nested(st: SolutionType)
    ensures
        Edition::Basic.spec_allows_solution_type(st) ==> Edition::Professional.spec_allows_solution_type(st),
        Edition::Professional.spec_allows_solution_type(st) ==> Edition::Enterprise.spec_allows_solution_type(st),
{
}

/// Optimetrics and distributed solving come together; an edition with them
/// also has "Solve All"; and an edition limits the number of setups exactly
/// when it lacks "Solve All".
pub proof fn lemma_edition_features(e: Edition)
    ensures
        e.spec_allows_optimetrics() == e.spec_allows_distributed_solve(),
        e.spec_allows_optimetrics() ==> e.spec_allows_solve_all(),
        e.spec_allows_solve_all() <==> e.spec_max_setups() is None,
{
}

} // verus!
