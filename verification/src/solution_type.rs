use vstd::prelude::*;

verus! {

/// Electromagnetic simulation solution type.
///
/// Two solver families exist: full-wave (HFSS) and quasi-static (Q3D).
#[allow(non_camel_case_types)]
#[derive(Debug, Clone, Copy, PartialEq, Eq, Structural)]
pub enum SolutionType {
    /// Driven modal analysis: S-parameters via mode decomposition.
    DrivenModal,
    /// Driven terminal analysis: S-parameters via terminal V/I.
    DrivenTerminal,
    /// Eigenmode analysis: resonant frequencies and Q factors.
    Eigenmode,
    /// Transient analysis: time-domain FEM.
    Transient,
    /// SBR+: ray tracing plus physical optics for large scatterers.
    SBRPlus,
    /// DC resistance plus low-frequency inductance.
    Q3D_DCRL,
    /// AC resistance plus inductance.
    Q3D_ACRL,
    /// Capacitance matrix.
    Q3D_C,
    /// Capacitance plus conductance matrix.
    Q3D_CG,
}

impl SolutionType {
    /// The full-wave (HFSS) family.
    pub open spec fn spec_is_hfss(self) -> bool {
        self is DrivenModal || self is DrivenTerminal || self is Eigenmode || self is Transient
            || self is SBRPlus
    }

    /// The quasi-static (Q3D) family.
    pub open spec fn spec_is_q3d(self) -> bool {
        self is Q3D_DCRL || self is Q3D_ACRL || self is Q3D_C || self is Q3D_CG
    }

    /// Returns true if this is an HFSS (full-wave) solution type.
    pub fn is_hfss(&self) -> (r: bool)
        ensures
            r == self.spec_is_hfss(),
    {
        match self {
            SolutionType::DrivenModal | SolutionType::DrivenTerminal | SolutionType::Eigenmode
            | SolutionType::Transient | SolutionType::SBRPlus => true,
            _ => false,
        }
    }

    /// Returns true if this is a Q3D (quasi-static) solution type.
    pub fn is_q3d(&self) -> (r: bool)
        ensures
            r == self.spec_is_q3d(),
    {
        match self {
            SolutionType::Q3D_DCRL | SolutionType::Q3D_ACRL | SolutionType::Q3D_C
            | SolutionType::Q3D_CG => true,
            _ => false,
        }
    }
}

/// Every solution type belongs to exactly one of the two solver families.
pub proof fn lemma_solution_type_one_family(st: SolutionType)
    ensures
        st.spec_is_hfss() != st.spec_is_q3d(),
{
}

} // verus!
