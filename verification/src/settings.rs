//! Design-level settings (port normalization, de-embedding, model
//! validation, solver options) and the defaults a project file falls back
//! on when it leaves a setting out.
use vstd::prelude::*;
use vstd::string::*;

verus! {

/// What a named selection selects.
#[derive(Debug, Clone, Copy, PartialEq, Eq, Structural)]
pub enum SelectionType {
    Face,
    Edge,
    Vertex,
    Object,
}

impl Default for SelectionType {
    fn default() -> (r: Self)
        ensures
            r == SelectionType::Object,
    {
        SelectionType::Object
    }
}

/// The default length unit of a design: `mm`.
pub fn default_units() -> (r: String)
    ensures
        r@ == "mm"@,
{
    String::from_str("mm")
}

/// The default coordinate system type: `Cartesian`.
pub fn default_cartesian() -> (r: String)
    ensures
        r@ == "Cartesian"@,
{
    String::from_str("Cartesian")
}

/// The default S-matrix type: `Modal`.
pub fn default_s_matrix_type() -> (r: String)
    ensures
        r@ == "Modal"@,
{
    String::from_str("Modal")
}

/// The default environment temperature: `22cel`.
pub fn default_temperature() -> (r: String)
    ensures
        r@ == "22cel"@,
{
    String::from_str("22cel")
}

/// The default of a switch that is on unless said otherwise.
pub fn default_true() -> (r: bool)
    ensures
        r,
{
    true
}

/// The default port reference impedance: `50ohm`.
pub fn default_ref_impedance() -> (r: String)
    ensures
        r@ == "50ohm"@,
{
    String::from_str("50ohm")
}

/// The default de-embedding distance: `0mm`.
pub fn default_zero_mm() -> (r: String)
    ensures
        r@ == "0mm"@,
{
    String::from_str("0mm")
}

/// The default order of curved elements: `1st`.
pub fn default_curved_order() -> (r: String)
    ensures
        r@ == "1st"@,
{
    String::from_str("1st")
}

/// Port impedance normalization.
#[derive(Debug, Clone)]
pub struct PortNormalization {
    pub enabled: bool,
    pub reference_impedance: String,
}

impl Default for PortNormalization {
    fn default() -> (r: Self)
        ensures
            r.enabled,
            r.reference_impedance@ == "50ohm"@,
    {
        PortNormalization { enabled: true, reference_impedance: default_ref_impedance() }
    }
}

/// Port de-embedding.
#[derive(Debug, Clone)]
pub struct DeembeddingSettings {
    pub enabled: bool,
    pub default_distance: String,
}

impl Default for DeembeddingSettings {
    fn default() -> (r: Self)
        ensures
            !r.enabled,
            r.default_distance@ == Seq::<char>::empty(),
    {
        DeembeddingSettings { enabled: false, default_distance: String::new() }
    }
}

/// Which checks run before a solve.
#[derive(Debug, Clone)]
pub struct ValidationSettings {
    pub validate_before_solve: bool,
    pub check_intersections: bool,
    pub check_duplicate_boundaries: bool,
    pub check_port_on_boundary: bool,
}

impl Default for ValidationSettings {
    fn default() -> (r: Self)
        ensures
            r.validate_before_solve,
            r.check_intersections,
            r.check_duplicate_boundaries,
            r.check_port_on_boundary,
    {
        ValidationSettings {
            validate_before_solve: true,
            check_intersections: true,
            check_duplicate_boundaries: true,
            check_port_on_boundary: true,
        }
    }
}

/// Solver options.
#[derive(Debug, Clone)]
pub struct SolverOptions {
    pub use_shell_elements: bool,
    pub curved_elements_order: String,
    pub allow_solver_fallback: bool,
}

impl Default for SolverOptions {
    fn default() -> (r: Self)
        ensures
            !r.use_shell_elements,
            r.curved_elements_order@ == "1st"@,
            r.allow_solver_fallback,
    {
        SolverOptions {
            use_shell_elements: false,
            curved_elements_order: default_curved_order(),
            allow_solver_fallback: true,
        }
    }
}

/// Design-level settings.
#[derive(Debug, Clone)]
pub struct DesignSettings {
    pub port_impedance_normalization: PortNormalization,
    pub deembedding: DeembeddingSettings,
    pub s_matrix_type: String,
    pub environment_temperature: String,
    pub model_validation: ValidationSettings,
    pub solver_options: SolverOptions,
}

impl Default for DesignSettings {
    fn default() -> (r: Self)
        ensures
            r.port_impedance_normalization.enabled,
            r.port_impedance_normalization.reference_impedance@ == "50ohm"@,
            !r.deembedding.enabled,
            r.deembedding.default_distance@ == Seq::<char>::empty(),
            r.s_matrix_type@ == "Modal"@,
            r.environment_temperature@ == "22cel"@,
            r.model_validation.validate_before_solve,
            r.model_validation.check_intersections,
            r.model_validation.check_duplicate_boundaries,
            r.model_validation.check_port_on_boundary,
            !r.solver_options.use_shell_elements,
            r.solver_options.curved_elements_order@ == "1st"@,
            r.solver_options.allow_solver_fallback,
    {
        DesignSettings {
            port_impedance_normalization: PortNormalization::default(),
            deembedding: DeembeddingSettings::default(),
            s_matrix_type: default_s_matrix_type(),
            environment_temperature: default_temperature(),
            model_validation: ValidationSettings::default(),
            solver_options: SolverOptions::default(),
        }
    }
}

} // verus!
