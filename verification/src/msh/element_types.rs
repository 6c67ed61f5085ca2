//! Gmsh element type codes.
use vstd::prelude::*;

verus! {

pub const LINE2: u32 = 1;
pub const TRI3: u32 = 2;
pub const QUAD4: u32 = 3;
pub const TET4: u32 = 4;
pub const HEX8: u32 = 5;
pub const TET10: u32 = 11;
pub const TRI6: u32 = 9;

/// The number of nodes of an element type, for the types known here.
pub open spec fn spec_num_nodes(element_type: u32) -> Option<usize> {
    if element_type == 1 {
        Some(2usize)
    } else if element_type == 2 {
        Some(3usize)
    } else if element_type == 3 {
        Some(4usize)
    } else if element_type == 4 {
        Some(4usize)
    } else if element_type == 5 {
        Some(8usize)
    } else if element_type == 9 {
        Some(6usize)
    } else if element_type == 11 {
        Some(10usize)
    } else if element_type == 15 {
        Some(1usize)
    } else {
        None
    }
}

/// Number of nodes for a given element type: line2 2, tri3 3, quad4 4,
/// tet4 4, hex8 8, tri6 6, tet10 10, point 1; `None` for other types.
pub fn num_nodes(element_type: u32) -> (r: Option<usize>)
    ensures
        r == spec_num_nodes(element_type),
{
    match element_type {
        1 => Some(2),
        2 => Some(3),
        3 => Some(4),
        4 => Some(4),
        5 => Some(8),
        9 => Some(6),
        11 => Some(10),
        15 => Some(1),
        _ => None,
    }
}

} // verus!
