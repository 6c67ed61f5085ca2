//! The cell structure of a VTK legacy unstructured grid built from the linear
//! tetrahedra of a mesh: which nodes become points, in which order, and how
//! each cell refers to them. Writing the coordinates and field values, which
//! are floating-point, is left to the caller.
use std::collections::HashMap;
use vstd::prelude::*;

use crate::msh::element_types::TET4;
use crate::msh::{spec_elements_of_types, ElementModel, MshElement};

verus! {

broadcast use vstd::std_specs::hash::group_hash_axioms;

/// VTK cell type code of a linear tetrahedron.
pub const VTK_TETRA: u32 = 10;

/// The points and cells of the grid.
#[derive(Debug, Clone)]
pub struct VtkTopology {
    /// The node tags the cells use, each once, in order of first use.
    pub point_tags: Vec<u64>,
    /// For each tet4 element, in order, the indices into `point_tags` of its
    /// first four nodes.
    pub cells: Vec<[usize; 4]>,
}

/// The first four node tags of each element, one element after another.
pub open spec fn spec_corner_tags(tets: Seq<ElementModel>) -> Seq<u64>
    decreases tets.len(),
{
    if tets.len() == 0 {
        Seq::empty()
    } else {
        spec_corner_tags(tets.drop_last()) + tets.last().node_tags.take(4)
    }
}

/// `s` with every value after its first occurrence left out.
pub open spec fn spec_first_occurrences(s: Seq<u64>) -> Seq<u64>
    decreases s.len(),
{
    if s.len() == 0 {
        Seq::empty()
    } else {
        let d = spec_first_occurrences(s.drop_last());
        if d.contains(s.last()) {
            d
        } else {
            d.push(s.last())
        }
    }
}

/// The linear tetrahedra of a list of elements, in order.
pub open spec fn spec_tets(els: Seq<ElementModel>) -> Seq<ElementModel> {
    spec_elements_of_types(els, TET4, TET4)
}

/// Every linear tetrahedron has at least four node tags.
pub open spec fn spec_tets_have_corners(els: Seq<ElementModel>) -> bool {
    forall|i: int| 0 <= i < els.len() && (#[trigger] els[i]).element_type == TET4 ==> els[i].node_tags.len() >= 4
}

/// No value occurs twice.
pub open spec fn spec_no_duplicates(s: Seq<u64>) -> bool {
    forall|i: int, j: int| 0 <= i < j < s.len() ==> s[i] != s[j]
}

/// What a topology holds for the given elements: the points are the corner
/// tags of the tetrahedra, each once, in order of first use; there is one
/// cell per tetrahedron, in order, whose entries point at its corners.
pub open spec fn spec_topology_of(t: VtkTopology, els: Seq<ElementModel>) -> bool {
    let tets = spec_tets(els);
    &&& t.point_tags@ == spec_first_occurrences(spec_corner_tags(tets))
    &&& spec_no_duplicates(t.point_tags@)
    &&& t.cells@.len() == tets.len()
    &&& forall|k: int, j: int| 0 <= k < tets.len() && 0 <= j < 4 ==> {
        &&& (#[trigger] t.cells@[k][j]) < t.point_tags@.len()
        &&& t.point_tags@[t.cells@[k][j] as int] == tets[k].node_tags[j]
    }
}

proof fn lemma_first_occurrences_push(s: Seq<u64>, x: u64)
    ensures
        spec_first_occurrences(s.push(x)) == (if spec_first_occurrences(s).contains(x) {
            spec_first_occurrences(s)
        } else {
            spec_first_occurrences(s).push(x)
        }),
{
    assert(s.push(x).drop_last() =~= s);
}

/// The index of `tag` among the points, through the map kept beside them.
fn point_index(map: &HashMap<u64, usize>, tag: u64, Ghost(points): Ghost<Seq<u64>>) -> (r: usize)
    requires
        map@.contains_key(tag),
        forall|t: u64| map@.contains_key(t) ==> map@[t] < points.len() && points[map@[t] as int] == t,
    ensures
        r < points.len(),
        points[r as int] == tag,
{
    match map.get(&tag) {
        Some(i) => *i,
        None => 0,
    }
}

impl VtkTopology {
    /// The points and cells of the grid of the linear tetrahedra among
    /// `elements`.
    pub fn from_elements(elements: &Vec<MshElement>) -> (r: VtkTopology)
        requires
            spec_tets_have_corners(elements@.map_values(|e: MshElement| e@)),
        ensures
            spec_topology_of(r, elements@.map_values(|e: MshElement| e@)),
    {
        let ghost els = elements@.map_values(|e: MshElement| e@);
        let mut map: HashMap<u64, usize> = HashMap::new();
        let mut point_tags: Vec<u64> = Vec::new();
        let mut cells: Vec<[usize; 4]> = Vec::new();
        let mut i: usize = 0;
        assert(els.take(0) =~= Seq::<ElementModel>::empty());
        while i < elements.len()
            invariant
                els == elements@.map_values(|e: MshElement| e@),
                spec_tets_have_corners(els),
                i <= elements@.len(),
                point_tags@ == spec_first_occurrences(spec_corner_tags(spec_tets(els.take(i as int)))),
                spec_no_duplicates(point_tags@),
                forall|t: u64| map@.contains_key(t) <==> point_tags@.contains(t),
                forall|t: u64| map@.contains_key(t) ==> map@[t] < point_tags@.len() && point_tags@[map@[t] as int] == t,
                cells@.len() == spec_tets(els.take(i as int)).len(),
                forall|k: int, j: int| 0 <= k < cells@.len() && 0 <= j < 4 ==> {
                    &&& (#[trigger] cells@[k][j]) < point_tags@.len()
                    &&& point_tags@[cells@[k][j] as int] == spec_tets(els.take(i as int))[k].node_tags[j]
                },
            decreases elements@.len() - i,
        {
            let e = &elements[i];
            let ghost prev_tets = spec_tets(els.take(i as int));
            let ghost prev_flat = spec_corner_tags(prev_tets);
            assert(els.take(i + 1).drop_last() =~= els.take(i as int));
            assert(els.take(i + 1).last() == e@);
            assert(els[i as int] == e@);
            if e.element_type == TET4 {
                assert(e.node_tags@.len() >= 4);
                let ghost tets = prev_tets.push(e@);
                assert(tets.drop_last() =~= prev_tets);
                let mut j: usize = 0;
                while j < 4
                    invariant
                        0 <= j <= 4,
                        e.node_tags@.len() >= 4,
                        point_tags@ == spec_first_occurrences(prev_flat + e.node_tags@.take(j as int)),
                        spec_no_duplicates(point_tags@),
                        forall|t: u64| map@.contains_key(t) <==> point_tags@.contains(t),
                        forall|t: u64| map@.contains_key(t) ==> map@[t] < point_tags@.len() && point_tags@[map@[t] as int] == t,
                        forall|k: int, jj: int| 0 <= k < cells@.len() && 0 <= jj < 4 ==> {
                            &&& (#[trigger] cells@[k][jj]) < point_tags@.len()
                            &&& point_tags@[cells@[k][jj] as int] == prev_tets[k].node_tags[jj]
                        },
                        cells@.len() == prev_tets.len(),
                        forall|jj: int| 0 <= jj < j ==> map@.contains_key(#[trigger] e.node_tags@[jj]),
                    decreases 4 - j,
                {
                    let tag = e.node_tags[j];
                    let ghost before = prev_flat + e.node_tags@.take(j as int);
                    assert(prev_flat + e.node_tags@.take(j + 1) =~= before.push(tag));
                    proof {
                        lemma_first_occurrences_push(before, tag);
                    }
                    if !map.contains_key(&tag) {
                        let ghost old_pts = point_tags@;
                        assert(!old_pts.contains(tag));
                        let idx = point_tags.len();
                        map.insert(tag, idx);
                        point_tags.push(tag);
                        assert(point_tags@ == old_pts.push(tag));
                        assert forall|t: u64| map@.contains_key(t) <==> point_tags@.contains(t) by {
                            if t == tag {
                                assert(point_tags@[idx as int] == tag);
                            } else {
                                if old_pts.contains(t) {
                                    let w = choose|w: int| 0 <= w < old_pts.len() && old_pts[w] == t;
                                    assert(point_tags@[w] == t);
                                }
                                if point_tags@.contains(t) {
                                    let w = choose|w: int| 0 <= w < point_tags@.len() && point_tags@[w] == t;
                                    assert(w < old_pts.len());
                                    assert(old_pts[w] == t);
                                }
                            }
                        }
                    } else {
                        assert(point_tags@.contains(tag));
                    }
                    j = j + 1;
                }
                let c0 = point_index(&map, e.node_tags[0], Ghost(point_tags@));
                let c1 = point_index(&map, e.node_tags[1], Ghost(point_tags@));
                let c2 = point_index(&map, e.node_tags[2], Ghost(point_tags@));
                let c3 = point_index(&map, e.node_tags[3], Ghost(point_tags@));
                assert(e.node_tags@.take(4) =~= e.node_tags@.take(4 as int));
                cells.push([c0, c1, c2, c3]);
                assert(spec_corner_tags(tets) == prev_flat + e.node_tags@.take(4));
                assert forall|k: int, jj: int| 0 <= k < cells@.len() && 0 <= jj < 4 implies {
                    &&& (#[trigger] cells@[k][jj]) < point_tags@.len()
                    &&& point_tags@[cells@[k][jj] as int] == tets[k].node_tags[jj]
                } by {
                    if k == cells@.len() - 1 {
                        assert(tets[k] == e@);
                    } else {
                        assert(tets[k] == prev_tets[k]);
                    }
                }
            }
            i = i + 1;
        }
        assert(els.take(elements@.len() as int) =~= els);
        VtkTopology { point_tags, cells }
    }
}

} // verus!
