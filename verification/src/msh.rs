//! Gmsh MSH 4.1 meshes (ASCII and binary): the mesh model, the line-level
//! syntax of its sections, and queries over elements.
//!
//! Physical-name conventions: `mat:<material>` for a volume material,
//! `bc:<boundary>` for a boundary surface, `ns:<selection>` for a named
//! selection.
use vstd::prelude::*;

use crate::text::{
    parse_i32, parse_u32, parse_u64, parse_usize, spec_parse_bounded, spec_parse_signed,
    spec_split_whitespace, spec_splitn3_space, spec_starts_with, spec_trim, spec_trim_char,
    split_whitespace, splitn3_space, starts_with, trim, trim_char, str_eq,
};
use vstd::string::*;

pub mod element_types;
pub mod reader;
pub mod sections;

use self::element_types::{num_nodes, spec_num_nodes};
use self::reader::{
    Cursor, IoFailure, MeshError, MeshErrorModel, Step, lemma_repeat_error_stays, read_exact,
    read_line, spec_cursor_ok, spec_matches, spec_matches_vec, spec_read_exact, spec_read_line,
    spec_repeat,
};
use self::sections::{read_elements, read_entities, read_nodes, spec_elements, spec_entities, spec_nodes};
use crate::emsfld::{read_u32_le, spec_read_u32};

verus! {

// ---------------------------------------------------------------------------
// Model
// ---------------------------------------------------------------------------

/// A `$PhysicalNames` entry.
#[derive(Debug, Clone)]
pub struct PhysicalName {
    pub dimension: u32,
    pub tag: u32,
    pub name: String,
}

/// A curve, surface or volume entity with its physical group tags.
#[derive(Debug, Clone)]
pub struct MshEntity {
    pub dimension: u32,
    pub tag: i32,
    pub physical_tags: Vec<i32>,
}

/// An element with its connectivity.
#[derive(Debug, Clone)]
pub struct MshElement {
    pub tag: u64,
    /// Gmsh element type: 1=line2, 2=tri3, 4=tet4, 11=tet10, etc.
    pub element_type: u32,
    /// Dimension of the entity this element belongs to.
    pub entity_dim: u32,
    /// Tag of the entity this element belongs to.
    pub entity_tag: i32,
    pub node_tags: Vec<u64>,
}

/// Where a node's coordinates come from: the three numbers of an ASCII
/// coordinate line (kept as text, with the line's number, for the caller to
/// read as floating-point values), or the bit patterns of the three
/// little-endian 64-bit floats of a binary file.
#[derive(Debug, Clone)]
pub enum NodeCoords {
    Text { line: usize, x: String, y: String, z: String },
    Bits { x: u64, y: u64, z: u64 },
}

/// A node: its tag and its coordinates.
#[derive(Debug, Clone)]
pub struct MshNode {
    pub tag: u64,
    pub coords: NodeCoords,
}

/// A parsed Gmsh MSH 4.1 mesh.
#[derive(Debug, Clone)]
pub struct MshMesh {
    pub version: String,
    pub binary: bool,
    pub physical_names: Vec<PhysicalName>,
    pub entities: Vec<MshEntity>,
    pub nodes: Vec<MshNode>,
    pub elements: Vec<MshElement>,
}

/// The mathematical value of `NodeCoords`.
pub enum CoordsModel {
    Text { line: usize, x: Seq<char>, y: Seq<char>, z: Seq<char> },
    Bits { x: u64, y: u64, z: u64 },
}

/// The mathematical value of an `MshNode`.
pub struct NodeModel {
    pub tag: u64,
    pub coords: CoordsModel,
}

/// The mathematical value of an `MshMesh`.
pub struct MeshModel {
    pub version: Seq<char>,
    pub binary: bool,
    pub physical_names: Seq<PhysicalNameModel>,
    pub entities: Seq<EntityModel>,
    pub nodes: Seq<NodeModel>,
    pub elements: Seq<ElementModel>,
}

impl View for NodeCoords {
    type V = CoordsModel;

    open spec fn view(&self) -> CoordsModel {
        match self {
            NodeCoords::Text { line, x, y, z } => CoordsModel::Text {
                line: *line,
                x: x@,
                y: y@,
                z: z@,
            },
            NodeCoords::Bits { x, y, z } => CoordsModel::Bits { x: *x, y: *y, z: *z },
        }
    }
}

impl View for MshNode {
    type V = NodeModel;

    open spec fn view(&self) -> NodeModel {
        NodeModel { tag: self.tag, coords: self.coords@ }
    }
}

impl View for MshMesh {
    type V = MeshModel;

    open spec fn view(&self) -> MeshModel {
        MeshModel {
            version: self.version@,
            binary: self.binary,
            physical_names: self.physical_names@.map_values(|e: PhysicalName| e@),
            entities: self.entities@.map_values(|e: MshEntity| e@),
            nodes: self.nodes@.map_values(|e: MshNode| e@),
            elements: self.elements@.map_values(|e: MshElement| e@),
        }
    }
}

/// The mathematical value of a `PhysicalName`.
pub struct PhysicalNameModel {
    pub dimension: u32,
    pub tag: u32,
    pub name: Seq<char>,
}

/// The mathematical value of an `MshEntity`.
pub struct EntityModel {
    pub dimension: u32,
    pub tag: i32,
    pub physical_tags: Seq<i32>,
}

/// The mathematical value of an `MshElement`.
pub struct ElementModel {
    pub tag: u64,
    pub element_type: u32,
    pub entity_dim: u32,
    pub entity_tag: i32,
    pub node_tags: Seq<u64>,
}

impl View for PhysicalName {
    type V = PhysicalNameModel;

    open spec fn view(&self) -> PhysicalNameModel {
        PhysicalNameModel { dimension: self.dimension, tag: self.tag, name: self.name@ }
    }
}

impl View for MshEntity {
    type V = EntityModel;

    open spec fn view(&self) -> EntityModel {
        EntityModel { dimension: self.dimension, tag: self.tag, physical_tags: self.physical_tags@ }
    }
}

impl View for MshElement {
    type V = ElementModel;

    open spec fn view(&self) -> ElementModel {
        ElementModel {
            tag: self.tag,
            element_type: self.element_type,
            entity_dim: self.entity_dim,
            entity_tag: self.entity_tag,
            node_tags: self.node_tags@,
        }
    }
}

// ---------------------------------------------------------------------------
// Numbers as the parsers read them
// ---------------------------------------------------------------------------

/// `s` read as an `i32`.
pub open spec fn spec_i32_of(s: Seq<char>) -> Option<i32> {
    match spec_parse_signed(s) {
        Some(v) => if i32::MIN <= v <= i32::MAX {
            Some(v as i32)
        } else {
            None
        },
        None => None,
    }
}

/// `s` read as a `u32`.
pub open spec fn spec_u32_of(s: Seq<char>) -> Option<u32> {
    match spec_parse_bounded(s, u32::MAX as nat) {
        Some(v) => Some(v as u32),
        None => None,
    }
}

/// `s` read as a `u64`.
pub open spec fn spec_u64_of(s: Seq<char>) -> Option<u64> {
    match spec_parse_bounded(s, u64::MAX as nat) {
        Some(v) => Some(v as u64),
        None => None,
    }
}

/// `s` read as a `usize`.
pub open spec fn spec_usize_of(s: Seq<char>) -> Option<usize> {
    match spec_parse_bounded(s, usize::MAX as nat) {
        Some(v) => Some(v as usize),
        None => None,
    }
}

/// The words that read as `i32`, in order; the others are dropped.
pub open spec fn spec_filter_i32s(ws: Seq<Seq<char>>) -> Seq<i32>
    decreases ws.len(),
{
    if ws.len() == 0 {
        Seq::empty()
    } else {
        let rest = spec_filter_i32s(ws.drop_last());
        match spec_i32_of(ws.last()) {
            Some(v) => rest.push(v),
            None => rest,
        }
    }
}

/// Every word read as a `u64`, or `None` if one does not read.
pub open spec fn spec_all_u64(ws: Seq<Seq<char>>) -> Option<Seq<u64>>
    decreases ws.len(),
{
    if ws.len() == 0 {
        Some(Seq::empty())
    } else {
        match spec_all_u64(ws.drop_last()) {
            None => None,
            Some(rest) => match spec_u64_of(ws.last()) {
                Some(v) => Some(rest.push(v)),
                None => None,
            },
        }
    }
}

// ---------------------------------------------------------------------------
// Line syntax
// ---------------------------------------------------------------------------

/// The index of the physical-tag count in an entity line: after the tag and
/// the coordinates of a point (3) or the bounding box of a curve, surface or
/// volume (6).
pub open spec fn spec_phys_idx(dimension: u32) -> int {
    if dimension == 0 {
        4
    } else {
        7
    }
}

/// An entity line: `tag x y z numPhysical tags...` for points,
/// `tag minX minY minZ maxX maxY maxZ numPhysical tags... numBounding ...`
/// otherwise. A line without the count has no physical tags; of the
/// announced tags, those present that read as `i32` are kept.
pub open spec fn spec_entity_line(line: Seq<char>, dimension: u32) -> Option<EntityModel> {
    let parts = spec_split_whitespace(spec_trim(line));
    if parts.len() == 0 {
        None
    } else {
        match spec_i32_of(parts[0]) {
            None => None,
            Some(tag) => {
                let pi = spec_phys_idx(dimension);
                if parts.len() <= pi {
                    Some(EntityModel { dimension, tag, physical_tags: Seq::empty() })
                } else {
                    match spec_usize_of(parts[pi]) {
                        None => None,
                        Some(n) => {
                            let end = if pi + 1 + n < parts.len() {
                                pi + 1 + n
                            } else {
                                parts.len() as int
                            };
                            Some(
                                EntityModel {
                                    dimension,
                                    tag,
                                    physical_tags: spec_filter_i32s(parts.subrange(pi + 1, end)),
                                },
                            )
                        },
                    }
                }
            },
        }
    }
}

/// Parse an entity line of the given dimension.
pub fn parse_entity_line(line: &str, dimension: u32) -> (r: Option<MshEntity>)
    ensures
        match spec_entity_line(line@, dimension) {
            Some(e) => r matches Some(x) && x@ == e,
            None => r is None,
        },
{
    let parts = split_whitespace(trim(line));
    let ghost ws = parts@.map_values(|w: &str| w@);
    if parts.len() == 0 {
        return None;
    }
    assert(ws[0] == parts@[0]@);
    let tag = match parse_i32(parts[0]) {
        Some(t) => t,
        None => return None,
    };
    let phys_idx: usize = if dimension == 0 {
        4
    } else {
        7
    };
    if parts.len() <= phys_idx {
        return Some(MshEntity { dimension, tag, physical_tags: Vec::new() });
    }
    assert(ws[phys_idx as int] == parts@[phys_idx as int]@);
    let num_phys = match parse_usize(parts[phys_idx]) {
        Some(n) => n,
        None => return None,
    };
    let len = parts.len();
    let end: usize = if num_phys < len - phys_idx - 1 {
        phys_idx + 1 + num_phys
    } else {
        len
    };
    let mut physical_tags: Vec<i32> = Vec::new();
    let mut k: usize = phys_idx + 1;
    assert(ws.subrange(phys_idx + 1, phys_idx + 1) =~= Seq::<Seq<char>>::empty());
    while k < end
        invariant
            len == parts@.len(),
            ws == parts@.map_values(|w: &str| w@),
            phys_idx + 1 <= k <= end <= len,
            physical_tags@ == spec_filter_i32s(ws.subrange(phys_idx + 1, k as int)),
        decreases end - k,
    {
        assert(ws.subrange(phys_idx + 1, k + 1).drop_last() =~= ws.subrange(
            phys_idx + 1,
            k as int,
        ));
        assert(ws.subrange(phys_idx + 1, k + 1).last() == parts@[k as int]@);
        match parse_i32(parts[k]) {
            Some(v) => physical_tags.push(v),
            None => {},
        }
        k = k + 1;
    }
    Some(MshEntity { dimension, tag, physical_tags })
}

/// A `$PhysicalNames` line: `dimension tag "name"`, split at the first two
/// spaces; the quotes around the name are removed. The error is the message.
pub open spec fn spec_physical_name_line(line: Seq<char>) -> Result<PhysicalNameModel, Seq<char>> {
    let parts = spec_splitn3_space(spec_trim(line));
    if parts.len() < 3 {
        Err("physical name needs 3 fields"@)
    } else {
        match spec_u32_of(parts[0]) {
            None => Err("invalid dimension"@),
            Some(dimension) => match spec_u32_of(parts[1]) {
                None => Err("invalid tag"@),
                Some(tag) => Ok(
                    PhysicalNameModel { dimension, tag, name: spec_trim_char(parts[2], '"') },
                ),
            },
        }
    }
}

/// Parse a `$PhysicalNames` line; the error is the message.
pub fn parse_physical_name_line(line: &str) -> (r: Result<PhysicalName, String>)
    ensures
        match spec_physical_name_line(line@) {
            Ok(p) => r matches Ok(x) && x@ == p,
            Err(m) => r matches Err(e) && e@ == m,
        },
{
    let parts = splitn3_space(trim(line));
    let ghost ws = parts@.map_values(|w: &str| w@);
    if parts.len() < 3 {
        return Err(String::from_str("physical name needs 3 fields"));
    }
    assert(ws[0] == parts@[0]@ && ws[1] == parts@[1]@ && ws[2] == parts@[2]@);
    let dimension = match parse_u32(parts[0]) {
        Some(v) => v,
        None => return Err(String::from_str("invalid dimension")),
    };
    let tag = match parse_u32(parts[1]) {
        Some(v) => v,
        None => return Err(String::from_str("invalid tag")),
    };
    let name = String::from_str(trim_char(parts[2], '"'));
    Ok(PhysicalName { dimension, tag, name })
}

/// An element line of an ASCII `$Elements` block: `tag node1 node2 ...`.
/// A blank line holds no element; the node tags present up to the element
/// type's node count are read, and all must read as `u64`. The error is the
/// message.
pub open spec fn spec_element_line(line: Seq<char>, nodes_per_elem: nat) -> Result<
    Option<(u64, Seq<u64>)>,
    Seq<char>,
> {
    let ep = spec_split_whitespace(spec_trim(line));
    if ep.len() == 0 {
        Ok(None)
    } else {
        match spec_u64_of(ep[0]) {
            None => Err("invalid element tag"@),
            Some(tag) => {
                let end: int = if nodes_per_elem + 1 < ep.len() {
                    nodes_per_elem as int + 1
                } else {
                    ep.len() as int
                };
                match spec_all_u64(ep.subrange(1, end)) {
                    None => Err("invalid node tag in element"@),
                    Some(nodes) => Ok(Some((tag, nodes))),
                }
            },
        }
    }
}

/// Parse an element line: `None` for a blank line, else the element tag
/// and its node tags.
pub fn parse_element_line(line: &str, nodes_per_elem: usize) -> (r: Result<
    Option<(u64, Vec<u64>)>,
    String,
>)
    ensures
        match spec_element_line(line@, nodes_per_elem as nat) {
            Ok(None) => r matches Ok(None),
            Ok(Some((t, ns))) => r matches Ok(Some((a, b))) && a == t && b@ == ns,
            Err(m) => r matches Err(e) && e@ == m,
        },
{
    let ep = split_whitespace(trim(line));
    let ghost ws = ep@.map_values(|w: &str| w@);
    if ep.len() == 0 {
        return Ok(None);
    }
    assert(ws[0] == ep@[0]@);
    let tag = match parse_u64(ep[0]) {
        Some(v) => v,
        None => return Err(String::from_str("invalid element tag")),
    };
    let len = ep.len();
    let end: usize = if nodes_per_elem < len - 1 {
        nodes_per_elem + 1
    } else {
        len
    };
    let mut node_tags: Vec<u64> = Vec::new();
    let mut i: usize = 1;
    assert(ws.subrange(1, 1) =~= Seq::<Seq<char>>::empty());
    while i < end
        invariant
            len == ep@.len(),
            ws == ep@.map_values(|w: &str| w@),
            1 <= i <= end <= len,
            spec_all_u64(ws.subrange(1, i as int)) == Some(node_tags@),
            ws == spec_split_whitespace(spec_trim(line@)),
            len > 0,
            spec_u64_of(ws[0]) == Some(tag),
            end == (if nodes_per_elem < len - 1 {
                nodes_per_elem + 1
            } else {
                len as int
            }),
        decreases end - i,
    {
        assert(ws.subrange(1, i + 1).drop_last() =~= ws.subrange(1, i as int));
        assert(ws.subrange(1, i + 1).last() == ep@[i as int]@);
        match parse_u64(ep[i]) {
            Some(v) => node_tags.push(v),
            None => {
                proof {
                    assert(spec_all_u64(ws.subrange(1, i + 1)) is None);
                    assert(ws.subrange(1, end as int).take(i as int) =~= ws.subrange(1, i + 1));
                    lemma_all_u64_prefix_fails(ws.subrange(1, end as int), i - 1);
                }
                return Err(String::from_str("invalid node tag in element"));
            },
        }
        i = i + 1;
    }
    Ok(Some((tag, node_tags)))
}

// ---------------------------------------------------------------------------
// Sections
// ---------------------------------------------------------------------------

/// A parse error at a line.
pub open spec fn spec_parse_err(line: int, message: Seq<char>) -> MeshErrorModel {
    MeshErrorModel::Parse { line: line as usize, message }
}

/// Reading a line whose trimmed text must be `tag` (a section's end).
pub open spec fn spec_expect_line(data: Seq<u8>, pos: int, line: int, tag: Seq<char>) -> Step<()> {
    match spec_read_line(data, pos, line) {
        Err(e) => Err(e),
        Ok((ln, p, l)) => if spec_trim(ln) == tag {
            Ok(((), p, l))
        } else {
            Err(MeshErrorModel::UnexpectedSection { expected: tag, found: spec_trim(ln) })
        },
    }
}

/// Read a line whose trimmed text must be `tag`.
fn expect_line(data: &[u8], cur: &mut Cursor, tag: &str) -> (r: Result<(), MeshError>)
    requires
        spec_cursor_ok(data@, *old(cur)),
    ensures
        spec_matches(r, *final(cur), spec_expect_line(data@, old(cur).pos as int, old(cur).line as int, tag@)),
        r is Ok ==> spec_cursor_ok(data@, *final(cur)) && final(cur).pos > old(cur).pos,
{
    let ln = match read_line(data, cur) {
        Ok(l) => l,
        Err(e) => return Err(e),
    };
    let t = trim(ln.as_str());
    if str_eq(t, tag) {
        Ok(())
    } else {
        Err(MeshError::UnexpectedSection { expected: String::from_str(tag), found: String::from_str(t) })
    }
}

/// One `$PhysicalNames` entry line.
pub open spec fn spec_physical_name_step(data: Seq<u8>) -> spec_fn(int, int, int) -> Step<Seq<PhysicalNameModel>> {
    |i: int, p: int, l: int|
        match spec_read_line(data, p, l) {
            Err(e) => Err(e),
            Ok((ln, p2, l2)) => match spec_physical_name_line(ln) {
                Err(m) => Err(spec_parse_err(l2, m)),
                Ok(pn) => Ok((seq![pn], p2, l2)),
            },
        }
}

/// The `$PhysicalNames` section after its header line: a count, that many
/// entries, and `$EndPhysicalNames`.
pub open spec fn spec_physical_names(data: Seq<u8>, pos: int, line: int) -> Step<Seq<PhysicalNameModel>> {
    match spec_read_line(data, pos, line) {
        Err(e) => Err(e),
        Ok((cl, p1, l1)) => match spec_usize_of(spec_trim(cl)) {
            None => Err(spec_parse_err(l1, "invalid physical names count"@)),
            Some(count) => match spec_repeat(spec_physical_name_step(data), p1, l1, count as nat) {
                Err(e) => Err(e),
                Ok((names, p2, l2)) => match spec_expect_line(data, p2, l2, "$EndPhysicalNames"@) {
                    Err(e) => Err(e),
                    Ok((_, p3, l3)) => Ok((names, p3, l3)),
                },
            },
        },
    }
}

/// Read the `$PhysicalNames` section after its header line.
#[verifier::loop_isolation(false)]
#[verifier::rlimit(40)]
pub fn read_physical_names(data: &[u8], cur: &mut Cursor) -> (r: Result<Vec<PhysicalName>, MeshError>)
    requires
        spec_cursor_ok(data@, *old(cur)),
    ensures
        spec_matches_vec(r, *final(cur), spec_physical_names(data@, old(cur).pos as int, old(cur).line as int)),
        r is Ok ==> spec_cursor_ok(data@, *final(cur)) && final(cur).pos > old(cur).pos,
{
    let count_line = match read_line(data, cur) {
        Ok(l) => l,
        Err(e) => return Err(e),
    };
    let count = match parse_usize(trim(count_line.as_str())) {
        Some(c) => c,
        None => return Err(MeshError::Parse { line: cur.line, message: String::from_str("invalid physical names count") }),
    };
    let ghost p1 = cur.pos as int;
    let ghost l1 = cur.line as int;
    let ghost step = spec_physical_name_step(data@);
    let mut names: Vec<PhysicalName> = Vec::new();
    let mut i: usize = 0;
    assert(names@.map_values(|e: PhysicalName| e@) =~= Seq::<PhysicalNameModel>::empty());
    while i < count
        invariant
            spec_cursor_ok(data@, *cur),
            cur.pos >= p1,
            p1 > old(cur).pos,
            i <= count,
            step == spec_physical_name_step(data@),
            spec_repeat(step, p1, l1, i as nat) == Ok::<(Seq<PhysicalNameModel>, int, int), MeshErrorModel>((names@.map_values(|e: PhysicalName| e@), cur.pos as int, cur.line as int)),
        decreases count - i,
    {
        let ghost p0 = cur.pos as int;
        let ghost l0 = cur.line as int;
        let ghost acc = names@.map_values(|e: PhysicalName| e@);
        let ln = match read_line(data, cur) {
            Ok(l) => l,
            Err(e) => {
                proof {
                    assert(step(i as int, p0, l0) == Err::<(Seq<PhysicalNameModel>, int, int), MeshErrorModel>(e@));
                    assert(spec_repeat(step, p1, l1, (i + 1) as nat) == Err::<(Seq<PhysicalNameModel>, int, int), MeshErrorModel>(e@));
                    lemma_repeat_error_stays(step, p1, l1, (i + 1) as nat, count as nat);
                }
                return Err(e);
            },
        };
        match parse_physical_name_line(ln.as_str()) {
            Ok(pn) => {
                names.push(pn);
                proof {
                    assert(step(i as int, p0, l0) == Ok::<(Seq<PhysicalNameModel>, int, int), MeshErrorModel>((seq![pn@], cur.pos as int, cur.line as int)));
                    assert(names@.map_values(|e: PhysicalName| e@) =~= acc + seq![pn@]);
                }
            },
            Err(m) => {
                let err = MeshError::Parse { line: cur.line, message: m };
                proof {
                    assert(step(i as int, p0, l0) == Err::<(Seq<PhysicalNameModel>, int, int), MeshErrorModel>(err@));
                    assert(spec_repeat(step, p1, l1, (i + 1) as nat) == Err::<(Seq<PhysicalNameModel>, int, int), MeshErrorModel>(err@));
                    lemma_repeat_error_stays(step, p1, l1, (i + 1) as nat, count as nat);
                }
                return Err(err);
            },
        }
        i = i + 1;
    }
    match expect_line(data, cur, "$EndPhysicalNames") {
        Ok(()) => Ok(names),
        Err(e) => Err(e),
    }
}

// ---------------------------------------------------------------------------
// The whole file
// ---------------------------------------------------------------------------

/// The `$MeshFormat` section: `version file-type data-size`; the version
/// must start with `4.`; file type 1 is binary, which is followed by the
/// little-endian integer 1 and one more byte. Yields the version and
/// whether the file is binary.
pub open spec fn spec_format(data: Seq<u8>) -> Step<(Seq<char>, bool)> {
    match spec_read_line(data, 0, 0) {
        Err(e) => Err(e),
        Ok((l1, p1, n1)) => if spec_trim(l1) != "$MeshFormat"@ {
            Err(MeshErrorModel::UnexpectedSection { expected: "$MeshFormat"@, found: spec_trim(l1) })
        } else {
            match spec_read_line(data, p1, n1) {
                Err(e) => Err(e),
                Ok((f, p2, n2)) => {
                    let parts = spec_split_whitespace(spec_trim(f));
                    if parts.len() < 3 {
                        Err(spec_parse_err(n2, "MeshFormat line needs 3 fields"@))
                    } else if !spec_starts_with(parts[0], "4."@) {
                        Err(MeshErrorModel::UnsupportedVersion(parts[0]))
                    } else {
                        match spec_u32_of(parts[1]) {
                            None => Err(spec_parse_err(n2, "invalid file-type"@)),
                            Some(ft) => match spec_u32_of(parts[2]) {
                                None => Err(spec_parse_err(n2, "invalid data-size"@)),
                                Some(_) => {
                                    let binary = ft == 1;
                                    let after: Step<()> = if binary {
                                        match spec_read_exact(data, p2, n2, 4) {
                                            Err(e) => Err(e),
                                            Ok((m, p3, n3)) => if spec_read_u32(m, 0) != 1 {
                                                Err(MeshErrorModel::InvalidBinary("endian marker mismatch (expected little-endian 0x00000001)"@))
                                            } else {
                                                match spec_read_exact(data, p3, n3, 1) {
                                                    Err(e) => Err(e),
                                                    Ok((_, p4, n4)) => Ok(((), p4, n4)),
                                                }
                                            },
                                        }
                                    } else {
                                        Ok(((), p2, n2))
                                    };
                                    match after {
                                        Err(e) => Err(e),
                                        Ok((_, p5, n5)) => match spec_expect_line(data, p5, n5, "$EndMeshFormat"@) {
                                            Err(e) => Err(e),
                                            Ok((_, p6, n6)) => Ok(((parts[0], binary), p6, n6)),
                                        },
                                    }
                                },
                            },
                        }
                    }
                },
            }
        },
    }
}

/// Skipping an unknown section: lines up to and including the one whose
/// trimmed text is `tag`.
pub open spec fn spec_skip_section(data: Seq<u8>, pos: int, line: int, tag: Seq<char>) -> Step<()>
    decreases data.len() - pos,
{
    match spec_read_line(data, pos, line) {
        Err(e) => Err(e),
        Ok((ln, p, l)) => if spec_trim(ln) == tag {
            Ok(((), p, l))
        } else if pos < p {
            spec_skip_section(data, p, l, tag)
        } else {
            Err(MeshErrorModel::Io(IoFailure::UnexpectedEof))
        },
    }
}

/// The sections after `$MeshFormat`, in any order, until the data ends:
/// blank lines are passed over, a repeated section replaces the earlier
/// one, nodes and elements are read as the format says (ASCII or binary),
/// and an unknown section `$X` is skipped up to `$EndX`. `fuel` bounds the
/// number of lines the loop reads; each takes at least one byte.
pub open spec fn spec_sections(data: Seq<u8>, pos: int, line: int, m: MeshModel, fuel: nat) -> Result<MeshModel, MeshErrorModel>
    decreases fuel,
{
    if fuel == 0 {
        Ok(m)
    } else {
        let f = (fuel - 1) as nat;
        match spec_read_line(data, pos, line) {
            Err(MeshErrorModel::Io(IoFailure::UnexpectedEof)) => Ok(m),
            Err(e) => Err(e),
            Ok((ln, p, l)) => {
                let sec = spec_trim(ln);
                if sec.len() == 0 {
                    spec_sections(data, p, l, m, f)
                } else if sec == "$PhysicalNames"@ {
                    match spec_physical_names(data, p, l) {
                        Err(e) => Err(e),
                        Ok((v, p2, l2)) => spec_sections(data, p2, l2, MeshModel { physical_names: v, ..m }, f),
                    }
                } else if sec == "$Entities"@ {
                    match spec_entities(data, p, l) {
                        Err(e) => Err(e),
                        Ok((v, p2, l2)) => spec_sections(data, p2, l2, MeshModel { entities: v, ..m }, f),
                    }
                } else if sec == "$Nodes"@ {
                    match spec_nodes(data, p, l, m.binary) {
                        Err(e) => Err(e),
                        Ok((v, p2, l2)) => spec_sections(data, p2, l2, MeshModel { nodes: v, ..m }, f),
                    }
                } else if sec == "$Elements"@ {
                    match spec_elements(data, p, l, m.binary) {
                        Err(e) => Err(e),
                        Ok((v, p2, l2)) => spec_sections(data, p2, l2, MeshModel { elements: v, ..m }, f),
                    }
                } else if sec[0] as u32 >= 128 {
                    Err(MeshErrorModel::SectionNameNotAscii)
                } else {
                    match spec_skip_section(data, p, l, "$End"@ + sec.drop_first()) {
                        Err(e) => Err(e),
                        Ok((_, p2, l2)) => spec_sections(data, p2, l2, m, f),
                    }
                }
            },
        }
    }
}

/// What reading a whole MSH 4.1 file yields.
pub open spec fn spec_read_mesh(data: Seq<u8>) -> Result<MeshModel, MeshErrorModel> {
    match spec_format(data) {
        Err(e) => Err(e),
        Ok(((version, binary), p, l)) => spec_sections(
            data,
            p,
            l,
            MeshModel {
                version,
                binary,
                physical_names: Seq::empty(),
                entities: Seq::empty(),
                nodes: Seq::empty(),
                elements: Seq::empty(),
            },
            (data.len() - p + 1) as nat,
        ),
    }
}

/// Read the `$MeshFormat` section.
#[verifier::loop_isolation(false)]
fn read_format(data: &[u8], cur: &mut Cursor) -> (r: Result<(String, bool), MeshError>)
    requires
        old(cur).pos == 0,
        old(cur).line == 0,
    ensures
        match spec_format(data@) {
            Ok(((v, b), p, l)) => r matches Ok((x, y)) && x@ == v && y == b && final(cur).pos == p && final(cur).line == l,
            Err(e) => r matches Err(x) && x@ == e,
        },
        r is Ok ==> spec_cursor_ok(data@, *final(cur)),
{
    let l1 = match read_line(data, cur) {
        Ok(l) => l,
        Err(e) => return Err(e),
    };
    let t1 = trim(l1.as_str());
    if !str_eq(t1, "$MeshFormat") {
        return Err(MeshError::UnexpectedSection { expected: String::from_str("$MeshFormat"), found: String::from_str(t1) });
    }
    let f = match read_line(data, cur) {
        Ok(l) => l,
        Err(e) => return Err(e),
    };
    let parts = split_whitespace(trim(f.as_str()));
    let ghost ws = parts@.map_values(|w: &str| w@);
    if parts.len() < 3 {
        return Err(MeshError::Parse { line: cur.line, message: String::from_str("MeshFormat line needs 3 fields") });
    }
    assert(ws[0] == parts@[0]@ && ws[1] == parts@[1]@ && ws[2] == parts@[2]@);
    let version = String::from_str(parts[0]);
    if !starts_with(parts[0], "4.") {
        return Err(MeshError::UnsupportedVersion(version));
    }
    let file_type = match parse_u32(parts[1]) {
        Some(v) => v,
        None => return Err(MeshError::Parse { line: cur.line, message: String::from_str("invalid file-type") }),
    };
    let binary = file_type == 1;
    match parse_u32(parts[2]) {
        Some(_) => {},
        None => return Err(MeshError::Parse { line: cur.line, message: String::from_str("invalid data-size") }),
    }
    if binary {
        let m = match read_exact(data, cur, 4) {
            Ok(m) => m,
            Err(e) => return Err(e),
        };
        if read_u32_le(m, 0) != 1 {
            return Err(MeshError::InvalidBinary(String::from_str("endian marker mismatch (expected little-endian 0x00000001)")));
        }
        match read_exact(data, cur, 1) {
            Ok(_) => {},
            Err(e) => return Err(e),
        }
    }
    match expect_line(data, cur, "$EndMeshFormat") {
        Ok(()) => {},
        Err(e) => return Err(e),
    }
    Ok((version, binary))
}

/// Skip lines up to and including the one whose trimmed text is `tag`.
#[verifier::loop_isolation(false)]
fn skip_section(data: &[u8], cur: &mut Cursor, tag: &str) -> (r: Result<(), MeshError>)
    requires
        spec_cursor_ok(data@, *old(cur)),
    ensures
        spec_matches(r, *final(cur), spec_skip_section(data@, old(cur).pos as int, old(cur).line as int, tag@)),
        r is Ok ==> spec_cursor_ok(data@, *final(cur)) && final(cur).pos > old(cur).pos,
{
    loop
        invariant
            spec_cursor_ok(data@, *cur),
            cur.pos >= old(cur).pos,
            spec_skip_section(data@, old(cur).pos as int, old(cur).line as int, tag@)
                == spec_skip_section(data@, cur.pos as int, cur.line as int, tag@),
        decreases data@.len() - cur.pos,
    {
        let ln = match read_line(data, cur) {
            Ok(l) => l,
            Err(e) => return Err(e),
        };
        if str_eq(trim(ln.as_str()), tag) {
            return Ok(());
        }
    }
}

impl MshMesh {
    /// Read a Gmsh MSH 4.1 file (ASCII or binary) from its bytes.
    ///
    /// A section name whose first character is not ASCII is excluded: the
    /// name of the end tag of such an unknown section cannot be formed.
    pub fn read_from(data: &[u8]) -> (r: Result<MshMesh, MeshError>)
        requires
            !(spec_read_mesh(data@) matches Err(MeshErrorModel::SectionNameNotAscii)),
        ensures
            match spec_read_mesh(data@) {
                Ok(m) => r matches Ok(x) && x@ == m,
                Err(e) => r matches Err(x) && x@ == e,
            },
    {
        match MshMesh::read_checked(data) {
            Some(r) => r,
            None => Err(MeshError::Io(IoFailure::InvalidData)),
        }
    }

    /// Read a Gmsh MSH 4.1 file (ASCII or binary) from its bytes, as
    /// `read_from` does; `None` exactly where an unknown section's name
    /// starts with a non-ASCII character, the input `read_from` excludes.
    #[verifier::loop_isolation(false)]
    pub fn read_checked(data: &[u8]) -> (r: Option<Result<MshMesh, MeshError>>)
        ensures
            match spec_read_mesh(data@) {
                Ok(m) => r matches Some(Ok(x)) && x@ == m,
                Err(MeshErrorModel::SectionNameNotAscii) => r is None,
                Err(e) => r matches Some(Err(x)) && x@ == e,
            },
    {
        let mut cur = Cursor { pos: 0, line: 0 };
        let (version, binary) = match read_format(data, &mut cur) {
            Ok(vb) => vb,
            Err(e) => return Some(Err(e)),
        };
        let mut mesh = MshMesh {
            version,
            binary,
            physical_names: Vec::new(),
            entities: Vec::new(),
            nodes: Vec::new(),
            elements: Vec::new(),
        };
        let ghost mut fuel: nat = (data@.len() - cur.pos + 1) as nat;
        assert(mesh@.physical_names =~= Seq::<PhysicalNameModel>::empty());
        assert(mesh@.entities =~= Seq::<EntityModel>::empty());
        assert(mesh@.nodes =~= Seq::<NodeModel>::empty());
        assert(mesh@.elements =~= Seq::<ElementModel>::empty());
        loop
            invariant
                spec_cursor_ok(data@, cur),
                fuel >= data@.len() - cur.pos + 1,
                mesh.binary == binary,
                spec_read_mesh(data@) == spec_sections(data@, cur.pos as int, cur.line as int, mesh@, fuel),
            decreases data@.len() - cur.pos,
        {
            let ghost p0 = cur.pos;
            let ln = match read_line(data, &mut cur) {
                Ok(l) => l,
                Err(MeshError::Io(IoFailure::UnexpectedEof)) => return Some(Ok(mesh)),
                Err(e) => return Some(Err(e)),
            };
            let ghost f = (fuel - 1) as nat;
            proof {
                fuel = f;
            }
            let sec = trim(ln.as_str());
            let n = sec.unicode_len();
            if n == 0 {
                continue;
            }
            if str_eq(sec, "$PhysicalNames") {
                let v = match read_physical_names(data, &mut cur) {
                    Ok(v) => v,
                    Err(e) => return Some(Err(e)),
                };
                mesh.physical_names = v;
            } else if str_eq(sec, "$Entities") {
                let v = match read_entities(data, &mut cur) {
                    Ok(v) => v,
                    Err(e) => return Some(Err(e)),
                };
                mesh.entities = v;
            } else if str_eq(sec, "$Nodes") {
                let v = match read_nodes(data, &mut cur, mesh.binary) {
                    Ok(v) => v,
                    Err(e) => return Some(Err(e)),
                };
                mesh.nodes = v;
            } else if str_eq(sec, "$Elements") {
                let v = match read_elements(data, &mut cur, mesh.binary) {
                    Ok(v) => v,
                    Err(e) => return Some(Err(e)),
                };
                mesh.elements = v;
            } else {
                let first = sec.get_char(0);
                if first as u32 >= 128 {
                    return None;
                }
                let mut end_tag = String::from_str("$End");
                end_tag.append(sec.substring_char(1, n));
                proof {
                    assert(sec@.subrange(1, n as int) =~= sec@.drop_first());
                }
                match skip_section(data, &mut cur, end_tag.as_str()) {
                    Ok(()) => {},
                    Err(e) => return Some(Err(e)),
                }
            }
        }
    }
}

// ---------------------------------------------------------------------------
// Queries
// ---------------------------------------------------------------------------

/// The elements of the given types, in order.
pub open spec fn spec_elements_of_types(els: Seq<ElementModel>, a: u32, b: u32) -> Seq<ElementModel>
    decreases els.len(),
{
    if els.len() == 0 {
        Seq::empty()
    } else {
        let rest = spec_elements_of_types(els.drop_last(), a, b);
        if els.last().element_type == a || els.last().element_type == b {
            rest.push(els.last())
        } else {
            rest
        }
    }
}

/// The tags of physical names that start with `prefix`, in order.
pub open spec fn spec_matching_tags(names: Seq<PhysicalNameModel>, prefix: Seq<char>) -> Seq<u32>
    decreases names.len(),
{
    if names.len() == 0 {
        Seq::empty()
    } else {
        let rest = spec_matching_tags(names.drop_last(), prefix);
        if spec_starts_with(names.last().name, prefix) {
            rest.push(names.last().tag)
        } else {
            rest
        }
    }
}

/// The physical tags of the last entity with the given dimension and tag.
pub open spec fn spec_entity_physical_tags(ents: Seq<EntityModel>, dim: u32, tag: i32) -> Option<Seq<i32>>
    decreases ents.len(),
{
    if ents.len() == 0 {
        None
    } else if ents.last().dimension == dim && ents.last().tag == tag {
        Some(ents.last().physical_tags)
    } else {
        spec_entity_physical_tags(ents.drop_last(), dim, tag)
    }
}

/// An element belongs to a physical group with the prefix: one of its
/// entity's physical tags, taken as `u32`, is a matching tag.
pub open spec fn spec_in_physical(m: MeshModel, prefix: Seq<char>, e: ElementModel) -> bool {
    match spec_entity_physical_tags(m.entities, e.entity_dim, e.entity_tag) {
        Some(pts) => exists|i: int| 0 <= i < pts.len() && spec_matching_tags(m.physical_names, prefix).contains(pts[i] as u32),
        None => false,
    }
}

/// The elements satisfying `spec_in_physical`, in order.
pub open spec fn spec_elements_in_physical(m: MeshModel, prefix: Seq<char>, els: Seq<ElementModel>) -> Seq<ElementModel>
    decreases els.len(),
{
    if els.len() == 0 {
        Seq::empty()
    } else {
        let rest = spec_elements_in_physical(m, prefix, els.drop_last());
        if spec_in_physical(m, prefix, els.last()) {
            rest.push(els.last())
        } else {
            rest
        }
    }
}

/// The position of the last node with a tag.
pub open spec fn spec_last_node_with_tag(nodes: Seq<NodeModel>, tag: u64) -> Option<int>
    decreases nodes.len(),
{
    if nodes.len() == 0 {
        None
    } else if nodes.last().tag == tag {
        Some(nodes.len() - 1)
    } else {
        spec_last_node_with_tag(nodes.drop_last(), tag)
    }
}

/// Whether `x` is in `v`.
fn contains_u32(v: &Vec<u32>, x: u32) -> (r: bool)
    ensures
        r == v@.contains(x),
{
    let mut q: usize = 0;
    while q < v.len()
        invariant
            q <= v@.len(),
            forall|j: int| 0 <= j < q ==> v@[j] != x,
        decreases v@.len() - q,
    {
        if v[q] == x {
            assert(v@[q as int] == x);
            return true;
        }
        q = q + 1;
    }
    false
}

impl MshMesh {
    /// The elements of two given types, in order.
    fn elements_of_types(&self, a: u32, b: u32) -> (r: Vec<&MshElement>)
        ensures
            r@.map_values(|e: &MshElement| e@) == spec_elements_of_types(self@.elements, a, b),
    {
        let ghost els = self@.elements;
        let mut out: Vec<&MshElement> = Vec::new();
        let mut i: usize = 0;
        assert(els.take(0) =~= Seq::<ElementModel>::empty());
        while i < self.elements.len()
            invariant
                els == self@.elements,
                els.len() == self.elements@.len(),
                i <= self.elements@.len(),
                out@.map_values(|e: &MshElement| e@) == spec_elements_of_types(els.take(i as int), a, b),
            decreases self.elements@.len() - i,
        {
            let e = &self.elements[i];
            let ghost acc = out@.map_values(|e: &MshElement| e@);
            assert(els.take(i + 1).drop_last() =~= els.take(i as int));
            assert(els.take(i + 1).last() == e@);
            if e.element_type == a || e.element_type == b {
                out.push(e);
                assert(out@.map_values(|e: &MshElement| e@) =~= acc.push(e@));
            }
            i = i + 1;
        }
        assert(els.take(self.elements@.len() as int) =~= els);
        out
    }

    /// All tetrahedral elements (tet4 and tet10), in order.
    pub fn tetrahedra(&self) -> (r: Vec<&MshElement>)
        ensures
            r@.map_values(|e: &MshElement| e@) == spec_elements_of_types(self@.elements, 4, 11),
    {
        self.elements_of_types(4, 11)
    }

    /// All triangle elements (tri3 and tri6), in order.
    pub fn triangles(&self) -> (r: Vec<&MshElement>)
        ensures
            r@.map_values(|e: &MshElement| e@) == spec_elements_of_types(self@.elements, 2, 9),
    {
        self.elements_of_types(2, 9)
    }

    /// Total number of nodes.
    pub fn num_nodes(&self) -> (r: usize)
        ensures
            r == self@.nodes.len(),
    {
        self.nodes.len()
    }

    /// Total number of elements.
    pub fn num_elements(&self) -> (r: usize)
        ensures
            r == self@.elements.len(),
    {
        self.elements.len()
    }

    /// The node with a tag; of several, the last read.
    pub fn node_by_tag(&self, tag: u64) -> (r: Option<&MshNode>)
        ensures
            match spec_last_node_with_tag(self@.nodes, tag) {
                Some(i) => r matches Some(n) && n@ == self@.nodes[i],
                None => r is None,
            },
    {
        let ghost ns = self@.nodes;
        let mut i: usize = self.nodes.len();
        assert(ns.take(ns.len() as int) =~= ns);
        while i > 0
            invariant
                ns == self@.nodes,
                ns.len() == self.nodes@.len(),
                i <= ns.len(),
                spec_last_node_with_tag(ns, tag) == spec_last_node_with_tag(ns.take(i as int), tag),
            decreases i,
        {
            let ghost t = ns.take(i as int);
            assert(t.drop_last() =~= ns.take(i - 1));
            assert(t.last() == self.nodes@[i - 1]@);
            if self.nodes[i - 1].tag == tag {
                return Some(&self.nodes[i - 1]);
            }
            i = i - 1;
        }
        None
    }

    /// The physical tags of the last entity with the given dimension and tag.
    fn entity_physical_tags(&self, dim: u32, tag: i32) -> (r: Option<&Vec<i32>>)
        ensures
            match spec_entity_physical_tags(self@.entities, dim, tag) {
                Some(pts) => r matches Some(v) && v@ == pts,
                None => r is None,
            },
    {
        let ghost es = self@.entities;
        let mut i: usize = self.entities.len();
        assert(es.take(es.len() as int) =~= es);
        while i > 0
            invariant
                es == self@.entities,
                es.len() == self.entities@.len(),
                i <= es.len(),
                spec_entity_physical_tags(es, dim, tag) == spec_entity_physical_tags(es.take(i as int), dim, tag),
            decreases i,
        {
            let ghost t = es.take(i as int);
            assert(t.drop_last() =~= es.take(i - 1));
            assert(t.last() == self.entities@[i - 1]@);
            let ent = &self.entities[i - 1];
            if ent.dimension == dim && ent.tag == tag {
                return Some(&ent.physical_tags);
            }
            i = i - 1;
        }
        None
    }

    /// The tags of physical names that start with `prefix`.
    fn matching_tags(&self, prefix: &str) -> (r: Vec<u32>)
        ensures
            r@ == spec_matching_tags(self@.physical_names, prefix@),
    {
        let ghost names = self@.physical_names;
        let mut out: Vec<u32> = Vec::new();
        let mut i: usize = 0;
        assert(names.take(0) =~= Seq::<PhysicalNameModel>::empty());
        while i < self.physical_names.len()
            invariant
                names == self@.physical_names,
                names.len() == self.physical_names@.len(),
                i <= names.len(),
                out@ == spec_matching_tags(names.take(i as int), prefix@),
            decreases names.len() - i,
        {
            let pn = &self.physical_names[i];
            assert(names.take(i + 1).drop_last() =~= names.take(i as int));
            assert(names.take(i + 1).last() == pn@);
            if starts_with(pn.name.as_str(), prefix) {
                out.push(pn.tag);
            }
            i = i + 1;
        }
        assert(names.take(names.len() as int) =~= names);
        out
    }

    /// Elements whose entity carries a physical group whose name starts with
    /// `prefix` (`"mat:"`, `"bc:"`, `"ns:"`), in order.
    pub fn elements_by_physical(&self, prefix: &str) -> (r: Vec<&MshElement>)
        ensures
            r@.map_values(|e: &MshElement| e@) == spec_elements_in_physical(self@, prefix@, self@.elements),
    {
        let matching = self.matching_tags(prefix);
        let ghost m = self@;
        let ghost els = self@.elements;
        let mut out: Vec<&MshElement> = Vec::new();
        let mut i: usize = 0;
        assert(els.take(0) =~= Seq::<ElementModel>::empty());
        while i < self.elements.len()
            invariant
                m == self@,
                els == self@.elements,
                els.len() == self.elements@.len(),
                matching@ == spec_matching_tags(m.physical_names, prefix@),
                i <= els.len(),
                out@.map_values(|e: &MshElement| e@) == spec_elements_in_physical(m, prefix@, els.take(i as int)),
            decreases els.len() - i,
        {
            let el = &self.elements[i];
            let ghost acc = out@.map_values(|e: &MshElement| e@);
            assert(els.take(i + 1).drop_last() =~= els.take(i as int));
            assert(els.take(i + 1).last() == el@);
            let keep = match self.entity_physical_tags(el.entity_dim, el.entity_tag) {
                Some(pts) => {
                    let mut found = false;
                    let mut k: usize = 0;
                    while k < pts.len() && !found
                        invariant
                            k <= pts@.len(),
                            found ==> exists|j: int| 0 <= j < pts@.len() && matching@.contains(pts@[j] as u32),
                            !found ==> forall|j: int| 0 <= j < k ==> !matching@.contains(#[trigger] pts@[j] as u32),
                        decreases pts@.len() - k + (if found { 0int } else { 1int }),
                    {
                        let pt = pts[k] as u32;
                        if contains_u32(&matching, pt) {
                            found = true;
                        } else {
                            k = k + 1;
                        }
                    }
                    found
                },
                None => false,
            };
            if keep {
                out.push(el);
                assert(out@.map_values(|e: &MshElement| e@) =~= acc.push(el@));
            }
            i = i + 1;
        }
        assert(els.take(els.len() as int) =~= els);
        out
    }
}

/// If a prefix of the words fails to read, so do all of them.
pub proof fn lemma_all_u64_prefix_fails(ws: Seq<Seq<char>>, k: int)
    requires
        0 <= k < ws.len(),
        spec_all_u64(ws.take(k + 1)) is None,
    ensures
        spec_all_u64(ws) is None,
    decreases ws.len() - k,
{
    if k + 1 < ws.len() {
        assert(ws.take(k + 2).drop_last() =~= ws.take(k + 1));
        lemma_all_u64_prefix_fails(ws, k + 1);
    } else {
        assert(ws.take(k + 1) =~= ws);
    }
}

} // verus!
