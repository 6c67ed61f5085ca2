//! Analysis setups: frequency sweeps, Q3D DC settings, and the defaults a
//! setup falls back on.
use vstd::prelude::*;
use vstd::string::*;

verus! {

/// How a frequency sweep is solved.
#[derive(Debug, Clone, Copy, PartialEq, Eq, Structural)]
pub enum SweepType {
    Discrete,
    Interpolating,
    Fast,
}

impl Default for SweepType {
    fn default() -> (r: Self)
        ensures
            r == SweepType::Discrete,
    {
        SweepType::Discrete
    }
}

/// A frequency sweep within an analysis setup.
#[derive(Debug, Clone)]
pub struct FrequencySweep {
    pub name: String,
    pub sweep_type: SweepType,
    pub start: String,
    pub stop: String,
    pub step: Option<String>,
    pub count: Option<u32>,
    pub scale: Option<String>,
    pub save_fields: bool,
    pub save_rad_fields: bool,
}

/// DC extraction settings (Q3D).
#[derive(Debug, Clone, Copy)]
pub struct DcSettings {
    pub compute_dc_resistance: bool,
    pub compute_dc_inductance: bool,
}

/// A setup is enabled unless said otherwise.
pub fn default_true() -> (r: bool)
    ensures
        r,
{
    true
}

/// The default number of adaptive passes: 15.
pub fn default_max_passes() -> (r: u32)
    ensures
        r == 15,
{
    15
}

/// The default number of converged passes required: 2.
pub fn default_min_converged() -> (r: u32)
    ensures
        r == 2,
{
    2
}

/// The default basis order: `Mixed`.
pub fn default_order_basis() -> (r: String)
    ensures
        r@ == "Mixed"@,
{
    String::from_str("Mixed")
}

/// The default solver: `Direct`.
pub fn default_solver_type() -> (r: String)
    ensures
        r@ == "Direct"@,
{
    String::from_str("Direct")
}

} // verus!
