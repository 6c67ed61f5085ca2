//! Field overlay plots: which quantity, how it is drawn, and the defaults
//! of a plot's scale and display.
use vstd::prelude::*;
use vstd::string::*;

verus! {

/// The field quantity a plot shows.
#[derive(Debug, Clone, Copy, PartialEq, Eq, Structural)]
pub enum FieldQuantity {
    E,
    H,
    Jvol,
    Jsurf,
    SAR,
    Poynting,
    /// Q3D: charge density.
    ChargeDistribution,
    /// Q3D: ohmic loss density.
    OhmicLoss,
}

/// Where a field is plotted.
#[derive(Debug, Clone, Copy, PartialEq, Eq, Structural)]
pub enum FieldPlotType {
    Surface,
    CutPlane,
    Volume,
    Line,
}

impl Default for FieldPlotType {
    fn default() -> (r: Self)
        ensures
            r == FieldPlotType::Surface,
    {
        FieldPlotType::Surface
    }
}

/// The default component of a plotted field: `Mag`.
pub fn default_mag() -> (r: String)
    ensures
        r@ == "Mag"@,
{
    String::from_str("Mag")
}

/// The default phase of a plotted field: `0deg`.
pub fn default_zero_deg() -> (r: String)
    ensures
        r@ == "0deg"@,
{
    String::from_str("0deg")
}

/// The default scale of a plot: `Linear`.
pub fn default_linear() -> (r: String)
    ensures
        r@ == "Linear"@,
{
    String::from_str("Linear")
}

/// The default plot style: `Shaded`.
pub fn default_shaded() -> (r: String)
    ensures
        r@ == "Shaded"@,
{
    String::from_str("Shaded")
}

/// The default number of colours of a plot: 256.
pub fn default_num_colors() -> (r: u32)
    ensures
        r == 256,
{
    256
}

} // verus!
