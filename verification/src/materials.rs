//! Materials and geometry appearance: material categories, layer stacks,
//! and the defaults of an object's material and colour.
use vstd::prelude::*;
use vstd::string::*;

verus! {

/// The kind of a material.
#[derive(Debug, Clone, Copy, PartialEq, Eq, Structural)]
pub enum MaterialCategory {
    Conductor,
    Dielectric,
    Magnetic,
    Composite,
    Gas,
}

impl Default for MaterialCategory {
    fn default() -> (r: Self)
        ensures
            r == MaterialCategory::Dielectric,
    {
        MaterialCategory::Dielectric
    }
}

/// The kind of a layer of a PCB stack-up.
#[derive(Debug, Clone, Copy, PartialEq, Eq, Structural)]
pub enum LayerType {
    /// Signal trace layer (copper).
    Signal,
    /// Ground or power plane.
    Ground,
    /// Dielectric substrate.
    Dielectric,
    /// Via layer.
    Via,
    /// Solder mask.
    SolderMask,
    /// Silkscreen.
    Silkscreen,
    /// Background (air half-space), typically the outermost layers.
    Background,
}

impl LayerType {
    /// Whether a layer of this kind conducts: signal and ground layers.
    pub fn is_conductor(&self) -> (r: bool)
        ensures
            r <==> (*self == LayerType::Signal || *self == LayerType::Ground),
    {
        match self {
            LayerType::Signal | LayerType::Ground => true,
            _ => false,
        }
    }

    /// Whether a layer of this kind is a dielectric.
    pub fn is_dielectric(&self) -> (r: bool)
        ensures
            r <==> *self == LayerType::Dielectric,
    {
        match self {
            LayerType::Dielectric => true,
            _ => false,
        }
    }
}

/// The default material of a geometry object: `vacuum`.
pub fn default_material() -> (r: String)
    ensures
        r@ == "vacuum"@,
{
    String::from_str("vacuum")
}

/// The default colour of an object or a material: mid grey.
pub fn default_color() -> (r: [u8; 3])
    ensures
        r@ == seq![128u8, 128u8, 128u8],
{
    let r: [u8; 3] = [128, 128, 128];
    assert(r@ =~= seq![128u8, 128u8, 128u8]);
    r
}

/// The default unit of a layer stack: `mm`.
pub fn default_stack_unit() -> (r: String)
    ensures
        r@ == "mm"@,
{
    String::from_str("mm")
}

/// A mesh refinement operation's kind.
#[derive(Debug, Clone, Copy, PartialEq, Eq, Structural)]
pub enum MeshOperationType {
    /// Maximum element length.
    LengthBased,
    /// Number of skin depth layers.
    SkinDepth,
    /// Surface normal deviation.
    CurvatureBased,
    /// Global minimum feature size.
    ModelResolution,
}

/// A legacy geometry object of a project model.
#[derive(Debug, Clone)]
pub struct GeometryObject {
    pub id: u64,
    pub name: String,
    pub mesh_hint: String,
}

} // verus!
