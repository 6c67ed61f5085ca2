//! Post-processing reports: categories, chart types, traces, markers,
//! display options and trace style defaults.
use vstd::prelude::*;
use vstd::string::*;

verus! {

/// What a report shows.
#[derive(Debug, Clone, Copy, PartialEq, Eq, Structural)]
pub enum ReportCategory {
    SParameter,
    FarField,
    NearField,
    Fields,
    Eigenmode,
    Emission,
    RLCGMatrix,
    Q3DFields,
}

/// How a report is drawn.
#[derive(Debug, Clone, Copy, PartialEq, Eq, Structural)]
pub enum ChartType {
    Rectangular,
    Polar,
    Smith,
    DataTable,
    Polar3D,
    MatrixTable,
    /// 3D rectangular plot of parameter sweep results.
    Rectangular3D,
}

impl Default for ChartType {
    fn default() -> (r: Self)
        ensures
            r == ChartType::Rectangular,
    {
        ChartType::Rectangular
    }
}

/// How a trace is drawn.
#[derive(Debug, Clone)]
pub struct TraceStyle {
    pub color: [u8; 3],
    pub line_width: u32,
    pub line_style: String,
}

/// The sweep a report is plotted over, and the values of the other
/// variables.
#[derive(Debug, Clone)]
pub struct ReportDomain {
    /// `Frequency`, `Time`, `Theta`, `Phi`, ...
    pub domain_type: String,
    pub primary_sweep: String,
    /// Variable name and value, one entry per variable.
    pub fixed_values: Option<Vec<(String, String)>>,
}

/// A trace of a report: a named quantity expression and how it is drawn.
#[derive(Debug, Clone)]
pub struct ReportTrace {
    pub name: String,
    /// e.g. `dB(S(1,1))`, `GainTotal`.
    pub expression: String,
    pub style: Option<TraceStyle>,
    pub parametric_values: Option<Vec<(String, String)>>,
    pub fixed_values: Option<Vec<(String, String)>>,
}

/// A marker on a trace.
#[derive(Debug, Clone)]
pub struct ReportMarker {
    pub name: String,
    pub trace: String,
    pub x_value: String,
}

/// Display options of a data table or matrix report.
#[derive(Debug, Clone, Copy)]
pub struct DisplayOptions {
    pub heatmap_enabled: Option<bool>,
    pub show_unit: Option<bool>,
    pub decimal_places: Option<u32>,
}

impl Default for DisplayOptions {
    fn default() -> (r: Self)
        ensures
            r.heatmap_enabled is None,
            r.show_unit is None,
            r.decimal_places is None,
    {
        DisplayOptions { heatmap_enabled: None, show_unit: None, decimal_places: None }
    }
}

/// The default trace colour: blue.
pub fn default_trace_color() -> (r: [u8; 3])
    ensures
        r@ == seq![0u8, 0u8, 255u8],
{
    let r: [u8; 3] = [0, 0, 255];
    assert(r@ =~= seq![0u8, 0u8, 255u8]);
    r
}

/// The default line width: 2.
pub fn default_line_width() -> (r: u32)
    ensures
        r == 2,
{
    2
}

/// The default line style: `Solid`.
pub fn default_line_style() -> (r: String)
    ensures
        r@ == "Solid"@,
{
    String::from_str("Solid")
}

} // verus!
