//! Radiation setups: far-field defaults and antenna parameters.
use vstd::prelude::*;
use vstd::string::*;

use crate::settings::default_ref_impedance;

verus! {

/// The default far-field setup type: `InfiniteSphere`.
pub fn default_infinite_sphere() -> (r: String)
    ensures
        r@ == "InfiniteSphere"@,
{
    String::from_str("InfiniteSphere")
}

/// The default coordinate system of a far-field setup: `Global`.
pub fn default_global_cs() -> (r: String)
    ensures
        r@ == "Global"@,
{
    String::from_str("Global")
}

/// Antenna parameter computation.
#[derive(Debug, Clone)]
pub struct AntennaParameters {
    pub reference_impedance: String,
    pub calculate_antenna_params: bool,
}

impl Default for AntennaParameters {
    fn default() -> (r: Self)
        ensures
            r.reference_impedance@ == "50ohm"@,
            r.calculate_antenna_params,
    {
        AntennaParameters { reference_impedance: default_ref_impedance(), calculate_antenna_params: true }
    }
}

} // verus!
