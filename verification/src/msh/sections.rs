//! The `$Entities`, `$Nodes` and `$Elements` sections, ASCII and binary.
use vstd::prelude::*;
use vstd::string::*;

use super::element_types::{num_nodes, spec_num_nodes};
use super::reader::{
    Cursor, MeshError, MeshErrorModel, Step, lemma_repeat_error_stays, read_exact, read_line,
    spec_cursor_ok, spec_matches, spec_matches_vec, spec_matches_u64s, spec_read_exact, spec_read_line,
    spec_repeat,
};
use super::{
    CoordsModel, ElementModel, EntityModel, MshElement, MshEntity, MshNode, NodeCoords,
    NodeModel, parse_element_line, parse_entity_line, spec_element_line, spec_entity_line,
    spec_expect_line, expect_line, spec_i32_of, spec_parse_err, spec_u32_of, spec_u64_of,
    spec_usize_of,
};
use crate::emsfld::{read_u64_le, spec_read_u64};
use crate::text::{
    parse_i32, parse_u32, parse_u64, parse_usize, spec_split_whitespace, spec_trim,
    split_whitespace, str_eq, trim,
};

verus! {

// ---------------------------------------------------------------------------
// Entities
// ---------------------------------------------------------------------------

/// Every word read as a `usize`, or `None` if one does not read.
pub open spec fn spec_all_usize(ws: Seq<Seq<char>>) -> Option<Seq<usize>>
    decreases ws.len(),
{
    if ws.len() == 0 {
        Some(Seq::empty())
    } else {
        match spec_all_usize(ws.drop_last()) {
            None => None,
            Some(rest) => match spec_usize_of(ws.last()) {
                Some(v) => Some(rest.push(v)),
                None => None,
            },
        }
    }
}

/// A line that is read and dropped (point entities).
pub open spec fn spec_skip_step(data: Seq<u8>) -> spec_fn(int, int, int) -> Step<Seq<EntityModel>> {
    |i: int, p: int, l: int|
        match spec_read_line(data, p, l) {
            Err(e) => Err(e),
            Ok((ln, p2, l2)) => Ok((Seq::empty(), p2, l2)),
        }
}

/// An entity line of the given dimension; lines that do not parse are dropped.
pub open spec fn spec_entity_step(data: Seq<u8>, dimension: u32) -> spec_fn(int, int, int) -> Step<Seq<EntityModel>> {
    |i: int, p: int, l: int|
        match spec_read_line(data, p, l) {
            Err(e) => Err(e),
            Ok((ln, p2, l2)) => match spec_entity_line(ln, dimension) {
                Some(e) => Ok((seq![e], p2, l2)),
                None => Ok((Seq::empty(), p2, l2)),
            },
        }
}

/// The `$Entities` section after its header line: four counts (points,
/// curves, surfaces, volumes), the point lines (dropped), the curve,
/// surface and volume lines, and `$EndEntities`.
pub open spec fn spec_entities(data: Seq<u8>, pos: int, line: int) -> Step<Seq<EntityModel>> {
    match spec_read_line(data, pos, line) {
        Err(e) => Err(e),
        Ok((h, p1, l1)) => match spec_all_usize(spec_split_whitespace(spec_trim(h))) {
            None => Err(spec_parse_err(l1, "invalid entity counts"@)),
            Some(c) => if c.len() != 4 {
                Err(spec_parse_err(l1, "entity header needs 4 counts"@))
            } else {
                match spec_repeat(spec_skip_step(data), p1, l1, c[0] as nat) {
                    Err(e) => Err(e),
                    Ok((_, p2, l2)) => match spec_repeat(spec_entity_step(data, 1), p2, l2, c[1] as nat) {
                        Err(e) => Err(e),
                        Ok((e1, p3, l3)) => match spec_repeat(spec_entity_step(data, 2), p3, l3, c[2] as nat) {
                            Err(e) => Err(e),
                            Ok((e2, p4, l4)) => match spec_repeat(spec_entity_step(data, 3), p4, l4, c[3] as nat) {
                                Err(e) => Err(e),
                                Ok((e3, p5, l5)) => match spec_expect_line(data, p5, l5, "$EndEntities"@) {
                                    Err(e) => Err(e),
                                    Ok((_, p6, l6)) => Ok((e1 + e2 + e3, p6, l6)),
                                },
                            },
                        },
                    },
                }
            },
        },
    }
}

/// Read `count` lines and drop them.
#[verifier::loop_isolation(false)]
fn skip_lines(data: &[u8], cur: &mut Cursor, count: usize) -> (r: Result<Vec<MshEntity>, MeshError>)
    requires
        spec_cursor_ok(data@, *old(cur)),
    ensures
        spec_matches_vec(r, *final(cur), spec_repeat(spec_skip_step(data@), old(cur).pos as int, old(cur).line as int, count as nat)),
        r is Ok ==> spec_cursor_ok(data@, *final(cur)) && final(cur).pos >= old(cur).pos,
{
    let ghost p1 = cur.pos as int;
    let ghost l1 = cur.line as int;
    let ghost step = spec_skip_step(data@);
    let out: Vec<MshEntity> = Vec::new();
    let mut i: usize = 0;
    assert(out@.map_values(|e: MshEntity| e@) =~= Seq::<EntityModel>::empty());
    while i < count
        invariant
            spec_cursor_ok(data@, *cur),
            cur.pos >= p1,
            i <= count,
            out@.len() == 0,
            spec_repeat(step, p1, l1, i as nat) == Ok::<(Seq<EntityModel>, int, int), MeshErrorModel>((Seq::empty(), cur.pos as int, cur.line as int)),
        decreases count - i,
    {
        let ghost p0 = cur.pos as int;
        let ghost l0 = cur.line as int;
        match read_line(data, cur) {
            Ok(_) => {
                assert(Seq::<EntityModel>::empty() + Seq::<EntityModel>::empty() =~= Seq::<EntityModel>::empty());
            },
            Err(e) => {
                proof {
                    assert(step(i as int, p0, l0) == Err::<(Seq<EntityModel>, int, int), MeshErrorModel>(e@));
                    lemma_repeat_error_stays(step, p1, l1, (i + 1) as nat, count as nat);
                }
                return Err(e);
            },
        }
        i = i + 1;
    }
    assert(out@.map_values(|e: MshEntity| e@) =~= Seq::<EntityModel>::empty());
    Ok(out)
}

/// Read `count` entity lines of a dimension, keeping those that parse.
#[verifier::loop_isolation(false)]
fn read_entity_lines(data: &[u8], cur: &mut Cursor, count: usize, dimension: u32) -> (r: Result<Vec<MshEntity>, MeshError>)
    requires
        spec_cursor_ok(data@, *old(cur)),
    ensures
        spec_matches_vec(r, *final(cur), spec_repeat(spec_entity_step(data@, dimension), old(cur).pos as int, old(cur).line as int, count as nat)),
        r is Ok ==> spec_cursor_ok(data@, *final(cur)) && final(cur).pos >= old(cur).pos,
{
    let ghost p1 = cur.pos as int;
    let ghost l1 = cur.line as int;
    let ghost step = spec_entity_step(data@, dimension);
    let mut out: Vec<MshEntity> = Vec::new();
    let mut i: usize = 0;
    assert(out@.map_values(|e: MshEntity| e@) =~= Seq::<EntityModel>::empty());
    while i < count
        invariant
            spec_cursor_ok(data@, *cur),
            cur.pos >= p1,
            i <= count,
            spec_repeat(step, p1, l1, i as nat) == Ok::<(Seq<EntityModel>, int, int), MeshErrorModel>((out@.map_values(|e: MshEntity| e@), cur.pos as int, cur.line as int)),
        decreases count - i,
    {
        let ghost p0 = cur.pos as int;
        let ghost l0 = cur.line as int;
        let ghost acc = out@.map_values(|e: MshEntity| e@);
        let ln = match read_line(data, cur) {
            Ok(l) => l,
            Err(e) => {
                proof {
                    assert(step(i as int, p0, l0) == Err::<(Seq<EntityModel>, int, int), MeshErrorModel>(e@));
                    lemma_repeat_error_stays(step, p1, l1, (i + 1) as nat, count as nat);
                }
                return Err(e);
            },
        };
        match parse_entity_line(ln.as_str(), dimension) {
            Some(e) => {
                out.push(e);
                proof {
                    assert(step(i as int, p0, l0) == Ok::<(Seq<EntityModel>, int, int), MeshErrorModel>((seq![e@], cur.pos as int, cur.line as int)));
                    assert(out@.map_values(|e: MshEntity| e@) =~= acc + seq![e@]);
                }
            },
            None => {
                proof {
                    assert(step(i as int, p0, l0) == Ok::<(Seq<EntityModel>, int, int), MeshErrorModel>((Seq::empty(), cur.pos as int, cur.line as int)));
                    assert(acc + Seq::<EntityModel>::empty() =~= acc);
                }
            },
        }
        i = i + 1;
    }
    Ok(out)
}

/// Read the `$Entities` section after its header line.
#[verifier::loop_isolation(false)]
pub fn read_entities(data: &[u8], cur: &mut Cursor) -> (r: Result<Vec<MshEntity>, MeshError>)
    requires
        spec_cursor_ok(data@, *old(cur)),
    ensures
        spec_matches_vec(r, *final(cur), spec_entities(data@, old(cur).pos as int, old(cur).line as int)),
        r is Ok ==> spec_cursor_ok(data@, *final(cur)) && final(cur).pos > old(cur).pos,
{
    let header = match read_line(data, cur) {
        Ok(l) => l,
        Err(e) => return Err(e),
    };
    let words = split_whitespace(trim(header.as_str()));
    let ghost ws = words@.map_values(|w: &str| w@);
    let mut counts: Vec<usize> = Vec::new();
    let mut k: usize = 0;
    assert(ws.take(0) =~= Seq::<Seq<char>>::empty());
    while k < words.len()
        invariant
            k <= words@.len(),
            ws == words@.map_values(|w: &str| w@),
            spec_all_usize(ws.take(k as int)) == Some(counts@),
        decreases words@.len() - k,
    {
        assert(ws.take(k + 1).drop_last() =~= ws.take(k as int));
        assert(ws.take(k + 1).last() == words@[k as int]@);
        match parse_usize(words[k]) {
            Some(v) => counts.push(v),
            None => {
                proof {
                    lemma_all_usize_prefix_fails(ws, k as int);
                }
                return Err(MeshError::Parse { line: cur.line, message: String::from_str("invalid entity counts") });
            },
        }
        k = k + 1;
    }
    assert(ws.take(words@.len() as int) =~= ws);
    if counts.len() != 4 {
        return Err(MeshError::Parse { line: cur.line, message: String::from_str("entity header needs 4 counts") });
    }
    match skip_lines(data, cur, counts[0]) {
        Ok(_) => {},
        Err(e) => return Err(e),
    }
    let mut e1 = match read_entity_lines(data, cur, counts[1], 1) {
        Ok(v) => v,
        Err(e) => return Err(e),
    };
    let mut e2 = match read_entity_lines(data, cur, counts[2], 2) {
        Ok(v) => v,
        Err(e) => return Err(e),
    };
    let mut e3 = match read_entity_lines(data, cur, counts[3], 3) {
        Ok(v) => v,
        Err(e) => return Err(e),
    };
    match expect_line(data, cur, "$EndEntities") {
        Ok(()) => {},
        Err(e) => return Err(e),
    }
    let ghost m1 = e1@.map_values(|e: MshEntity| e@);
    let ghost m2 = e2@.map_values(|e: MshEntity| e@);
    let ghost m3 = e3@.map_values(|e: MshEntity| e@);
    e1.append(&mut e2);
    e1.append(&mut e3);
    assert(e1@.map_values(|e: MshEntity| e@) =~= m1 + m2 + m3);
    Ok(e1)
}

// ---------------------------------------------------------------------------
// Section headers shared by nodes and elements
// ---------------------------------------------------------------------------

/// A section's first line: `numEntityBlocks numItems minTag maxTag`. At
/// least four fields; the block count and the item count must read as
/// `usize`. Yields the block count.
pub open spec fn spec_counts_header(
    data: Seq<u8>,
    pos: int,
    line: int,
    m_fields: Seq<char>,
    m_total: Seq<char>,
) -> Step<usize> {
    match spec_read_line(data, pos, line) {
        Err(e) => Err(e),
        Ok((h, p, l)) => {
            let parts = spec_split_whitespace(spec_trim(h));
            if parts.len() < 4 {
                Err(spec_parse_err(l, m_fields))
            } else {
                match spec_usize_of(parts[0]) {
                    None => Err(spec_parse_err(l, "invalid numEntityBlocks"@)),
                    Some(nb) => match spec_usize_of(parts[1]) {
                        None => Err(spec_parse_err(l, m_total)),
                        Some(_) => Ok((nb, p, l)),
                    },
                }
            }
        },
    }
}

/// Read a section's first line and return its block count.
fn read_counts_header(data: &[u8], cur: &mut Cursor, m_fields: &str, m_total: &str) -> (r: Result<usize, MeshError>)
    requires
        spec_cursor_ok(data@, *old(cur)),
    ensures
        spec_matches(r, *final(cur), spec_counts_header(data@, old(cur).pos as int, old(cur).line as int, m_fields@, m_total@)),
        r is Ok ==> spec_cursor_ok(data@, *final(cur)) && final(cur).pos > old(cur).pos,
{
    let h = match read_line(data, cur) {
        Ok(l) => l,
        Err(e) => return Err(e),
    };
    let parts = split_whitespace(trim(h.as_str()));
    let ghost ws = parts@.map_values(|w: &str| w@);
    if parts.len() < 4 {
        return Err(MeshError::Parse { line: cur.line, message: String::from_str(m_fields) });
    }
    assert(ws[0] == parts@[0]@ && ws[1] == parts@[1]@);
    let nb = match parse_usize(parts[0]) {
        Some(v) => v,
        None => return Err(MeshError::Parse { line: cur.line, message: String::from_str("invalid numEntityBlocks") }),
    };
    match parse_usize(parts[1]) {
        Some(_) => {},
        None => return Err(MeshError::Parse { line: cur.line, message: String::from_str(m_total) }),
    }
    Ok(nb)
}

/// A node block's first line: `entityDim entityTag parametric numNodes`.
/// Yields the node count.
pub open spec fn spec_node_block_header(data: Seq<u8>, pos: int, line: int) -> Step<usize> {
    match spec_read_line(data, pos, line) {
        Err(e) => Err(e),
        Ok((h, p, l)) => {
            let bp = spec_split_whitespace(spec_trim(h));
            if bp.len() < 4 {
                Err(spec_parse_err(l, "node block header needs 4 fields"@))
            } else {
                match spec_usize_of(bp[3]) {
                    None => Err(spec_parse_err(l, "invalid numNodesInBlock"@)),
                    Some(n) => Ok((n, p, l)),
                }
            }
        },
    }
}

/// Read a node block's first line and return its node count.
fn read_node_block_header(data: &[u8], cur: &mut Cursor) -> (r: Result<usize, MeshError>)
    requires
        spec_cursor_ok(data@, *old(cur)),
    ensures
        spec_matches(r, *final(cur), spec_node_block_header(data@, old(cur).pos as int, old(cur).line as int)),
        r is Ok ==> spec_cursor_ok(data@, *final(cur)) && final(cur).pos > old(cur).pos,
{
    let h = match read_line(data, cur) {
        Ok(l) => l,
        Err(e) => return Err(e),
    };
    let bp = split_whitespace(trim(h.as_str()));
    let ghost ws = bp@.map_values(|w: &str| w@);
    if bp.len() < 4 {
        return Err(MeshError::Parse { line: cur.line, message: String::from_str("node block header needs 4 fields") });
    }
    assert(ws[3] == bp@[3]@);
    match parse_usize(bp[3]) {
        Some(n) => Ok(n),
        None => Err(MeshError::Parse { line: cur.line, message: String::from_str("invalid numNodesInBlock") }),
    }
}

// ---------------------------------------------------------------------------
// Nodes
// ---------------------------------------------------------------------------

/// A node tag line (ASCII).
pub open spec fn spec_tag_step_ascii(data: Seq<u8>) -> spec_fn(int, int, int) -> Step<Seq<u64>> {
    |i: int, p: int, l: int|
        match spec_read_line(data, p, l) {
            Err(e) => Err(e),
            Ok((ln, p2, l2)) => match spec_u64_of(spec_trim(ln)) {
                None => Err(spec_parse_err(l2, "invalid node tag"@)),
                Some(t) => Ok((seq![t], p2, l2)),
            },
        }
}

/// A node coordinate line (ASCII) for the `i`-th tag: at least three words.
pub open spec fn spec_coord_step_ascii(data: Seq<u8>, tags: Seq<u64>) -> spec_fn(int, int, int) -> Step<Seq<NodeModel>> {
    |i: int, p: int, l: int|
        match spec_read_line(data, p, l) {
            Err(e) => Err(e),
            Ok((ln, p2, l2)) => {
                let cp = spec_split_whitespace(spec_trim(ln));
                if cp.len() < 3 {
                    Err(spec_parse_err(l2, "node needs 3 coordinates"@))
                } else {
                    Ok((seq![NodeModel { tag: tags[i], coords: CoordsModel::Text { line: l2 as usize, x: cp[0], y: cp[1], z: cp[2] } }], p2, l2))
                }
            },
        }
}

/// A node tag (binary): eight little-endian bytes.
pub open spec fn spec_tag_step_binary(data: Seq<u8>) -> spec_fn(int, int, int) -> Step<Seq<u64>> {
    |i: int, p: int, l: int|
        match spec_read_exact(data, p, l, 8) {
            Err(e) => Err(e),
            Ok((b, p2, l2)) => Ok((seq![spec_read_u64(b, 0)], p2, l2)),
        }
}

/// Node coordinates (binary) for the `i`-th tag: three little-endian 64-bit floats.
pub open spec fn spec_coord_step_binary(data: Seq<u8>, tags: Seq<u64>) -> spec_fn(int, int, int) -> Step<Seq<NodeModel>> {
    |i: int, p: int, l: int|
        match spec_read_exact(data, p, l, 24) {
            Err(e) => Err(e),
            Ok((b, p2, l2)) => Ok((seq![NodeModel { tag: tags[i], coords: CoordsModel::Bits { x: spec_read_u64(b, 0), y: spec_read_u64(b, 8), z: spec_read_u64(b, 16) } }], p2, l2)),
        }
}

/// A node block: its first line, then all node tags, then all coordinates.
pub open spec fn spec_node_block_step(data: Seq<u8>, binary: bool) -> spec_fn(int, int, int) -> Step<Seq<NodeModel>> {
    |i: int, p: int, l: int|
        match spec_node_block_header(data, p, l) {
            Err(e) => Err(e),
            Ok((n, p1, l1)) => {
                let tag_step = if binary { spec_tag_step_binary(data) } else { spec_tag_step_ascii(data) };
                match spec_repeat(tag_step, p1, l1, n as nat) {
                    Err(e) => Err(e),
                    Ok((tags, p2, l2)) => {
                        let coord_step = if binary { spec_coord_step_binary(data, tags) } else { spec_coord_step_ascii(data, tags) };
                        spec_repeat(coord_step, p2, l2, tags.len())
                    },
                }
            },
        }
}

/// The end of a binary `$Nodes` section: the line after the data, and if
/// that is not `$EndNodes`, the next one.
pub open spec fn spec_binary_nodes_end(data: Seq<u8>, pos: int, line: int) -> Step<()> {
    match spec_read_line(data, pos, line) {
        Err(e) => Err(e),
        Ok((ln, p, l)) => if spec_trim(ln) == "$EndNodes"@ {
            Ok(((), p, l))
        } else {
            spec_expect_line(data, p, l, "$EndNodes"@)
        },
    }
}

/// The `$Nodes` section after its header line, ASCII or binary.
pub open spec fn spec_nodes(data: Seq<u8>, pos: int, line: int, binary: bool) -> Step<Seq<NodeModel>> {
    match spec_counts_header(data, pos, line, "nodes header needs 4 fields"@, "invalid numNodes"@) {
        Err(e) => Err(e),
        Ok((nb, p1, l1)) => match spec_repeat(spec_node_block_step(data, binary), p1, l1, nb as nat) {
            Err(e) => Err(e),
            Ok((nodes, p2, l2)) => {
                let end = if binary {
                    spec_binary_nodes_end(data, p2, l2)
                } else {
                    spec_expect_line(data, p2, l2, "$EndNodes"@)
                };
                match end {
                    Err(e) => Err(e),
                    Ok((_, p3, l3)) => Ok((nodes, p3, l3)),
                }
            },
        },
    }
}

/// Read `count` node tags.
#[verifier::loop_isolation(false)]
fn read_node_tags(data: &[u8], cur: &mut Cursor, count: usize, binary: bool) -> (r: Result<Vec<u64>, MeshError>)
    requires
        spec_cursor_ok(data@, *old(cur)),
    ensures
        spec_matches_u64s(r, *final(cur), spec_repeat(if binary { spec_tag_step_binary(data@) } else { spec_tag_step_ascii(data@) }, old(cur).pos as int, old(cur).line as int, count as nat)),
        r is Ok ==> spec_cursor_ok(data@, *final(cur)) && final(cur).pos >= old(cur).pos,
{
    let ghost p1 = cur.pos as int;
    let ghost l1 = cur.line as int;
    let ghost step = if binary { spec_tag_step_binary(data@) } else { spec_tag_step_ascii(data@) };
    let mut out: Vec<u64> = Vec::new();
    let mut i: usize = 0;
    assert(out@ =~= Seq::<u64>::empty());
    while i < count
        invariant
            spec_cursor_ok(data@, *cur),
            cur.pos >= p1,
            i <= count,
            spec_repeat(step, p1, l1, i as nat) == Ok::<(Seq<u64>, int, int), MeshErrorModel>((out@, cur.pos as int, cur.line as int)),
        decreases count - i,
    {
        let ghost p0 = cur.pos as int;
        let ghost l0 = cur.line as int;
        let ghost acc = out@;
        let t: u64;
        if binary {
            let b = match read_exact(data, cur, 8) {
                Ok(b) => b,
                Err(e) => {
                    proof {
                        assert(step(i as int, p0, l0) == Err::<(Seq<u64>, int, int), MeshErrorModel>(e@));
                        lemma_repeat_error_stays(step, p1, l1, (i + 1) as nat, count as nat);
                    }
                    return Err(e);
                },
            };
            t = read_u64_le(b, 0);
        } else {
            let ln = match read_line(data, cur) {
                Ok(l) => l,
                Err(e) => {
                    proof {
                        assert(step(i as int, p0, l0) == Err::<(Seq<u64>, int, int), MeshErrorModel>(e@));
                        lemma_repeat_error_stays(step, p1, l1, (i + 1) as nat, count as nat);
                    }
                    return Err(e);
                },
            };
            t = match parse_u64(trim(ln.as_str())) {
                Some(v) => v,
                None => {
                    let err = MeshError::Parse { line: cur.line, message: String::from_str("invalid node tag") };
                    proof {
                        assert(step(i as int, p0, l0) == Err::<(Seq<u64>, int, int), MeshErrorModel>(err@));
                        lemma_repeat_error_stays(step, p1, l1, (i + 1) as nat, count as nat);
                    }
                    return Err(err);
                },
            };
        }
        out.push(t);
        proof {
            assert(step(i as int, p0, l0) == Ok::<(Seq<u64>, int, int), MeshErrorModel>((seq![t], cur.pos as int, cur.line as int)));
            assert(out@ =~= acc + seq![t]);
        }
        i = i + 1;
    }
    Ok(out)
}

/// Read the coordinates of the given node tags.
#[verifier::loop_isolation(false)]
fn read_node_coords(data: &[u8], cur: &mut Cursor, tags: &Vec<u64>, binary: bool) -> (r: Result<Vec<MshNode>, MeshError>)
    requires
        spec_cursor_ok(data@, *old(cur)),
    ensures
        spec_matches_vec(r, *final(cur), spec_repeat(if binary { spec_coord_step_binary(data@, tags@) } else { spec_coord_step_ascii(data@, tags@) }, old(cur).pos as int, old(cur).line as int, tags@.len())),
        r is Ok ==> spec_cursor_ok(data@, *final(cur)) && final(cur).pos >= old(cur).pos,
{
    let ghost p1 = cur.pos as int;
    let ghost l1 = cur.line as int;
    let ghost step = if binary { spec_coord_step_binary(data@, tags@) } else { spec_coord_step_ascii(data@, tags@) };
    let count = tags.len();
    let mut out: Vec<MshNode> = Vec::new();
    let mut i: usize = 0;
    assert(out@.map_values(|e: MshNode| e@) =~= Seq::<NodeModel>::empty());
    while i < count
        invariant
            count == tags@.len(),
            spec_cursor_ok(data@, *cur),
            cur.pos >= p1,
            i <= count,
            spec_repeat(step, p1, l1, i as nat) == Ok::<(Seq<NodeModel>, int, int), MeshErrorModel>((out@.map_values(|e: MshNode| e@), cur.pos as int, cur.line as int)),
        decreases count - i,
    {
        let ghost p0 = cur.pos as int;
        let ghost l0 = cur.line as int;
        let ghost acc = out@.map_values(|e: MshNode| e@);
        let node: MshNode;
        if binary {
            let b = match read_exact(data, cur, 24) {
                Ok(b) => b,
                Err(e) => {
                    proof {
                        assert(step(i as int, p0, l0) == Err::<(Seq<NodeModel>, int, int), MeshErrorModel>(e@));
                        lemma_repeat_error_stays(step, p1, l1, (i + 1) as nat, count as nat);
                    }
                    return Err(e);
                },
            };
            node = MshNode { tag: tags[i], coords: NodeCoords::Bits { x: read_u64_le(b, 0), y: read_u64_le(b, 8), z: read_u64_le(b, 16) } };
        } else {
            let ln = match read_line(data, cur) {
                Ok(l) => l,
                Err(e) => {
                    proof {
                        assert(step(i as int, p0, l0) == Err::<(Seq<NodeModel>, int, int), MeshErrorModel>(e@));
                        lemma_repeat_error_stays(step, p1, l1, (i + 1) as nat, count as nat);
                    }
                    return Err(e);
                },
            };
            let cp = split_whitespace(trim(ln.as_str()));
            let ghost ws = cp@.map_values(|w: &str| w@);
            if cp.len() < 3 {
                let err = MeshError::Parse { line: cur.line, message: String::from_str("node needs 3 coordinates") };
                proof {
                    assert(step(i as int, p0, l0) == Err::<(Seq<NodeModel>, int, int), MeshErrorModel>(err@));
                    lemma_repeat_error_stays(step, p1, l1, (i + 1) as nat, count as nat);
                }
                return Err(err);
            }
            assert(ws[0] == cp@[0]@ && ws[1] == cp@[1]@ && ws[2] == cp@[2]@);
            node = MshNode { tag: tags[i], coords: NodeCoords::Text { line: cur.line, x: String::from_str(cp[0]), y: String::from_str(cp[1]), z: String::from_str(cp[2]) } };
        }
        out.push(node);
        proof {
            assert(step(i as int, p0, l0) == Ok::<(Seq<NodeModel>, int, int), MeshErrorModel>((seq![node@], cur.pos as int, cur.line as int)));
            assert(out@.map_values(|e: MshNode| e@) =~= acc + seq![node@]);
        }
        i = i + 1;
    }
    Ok(out)
}

/// Read one node block.
fn read_node_block(data: &[u8], cur: &mut Cursor, binary: bool) -> (r: Result<Vec<MshNode>, MeshError>)
    requires
        spec_cursor_ok(data@, *old(cur)),
    ensures
        spec_matches_vec(r, *final(cur), (spec_node_block_step(data@, binary))(0, old(cur).pos as int, old(cur).line as int)),
        r is Ok ==> spec_cursor_ok(data@, *final(cur)) && final(cur).pos > old(cur).pos,
{
    let n = match read_node_block_header(data, cur) {
        Ok(n) => n,
        Err(e) => return Err(e),
    };
    let tags = match read_node_tags(data, cur, n, binary) {
        Ok(t) => t,
        Err(e) => return Err(e),
    };
    read_node_coords(data, cur, &tags, binary)
}

/// Read the `$Nodes` section after its header line.
#[verifier::loop_isolation(false)]
pub fn read_nodes(data: &[u8], cur: &mut Cursor, binary: bool) -> (r: Result<Vec<MshNode>, MeshError>)
    requires
        spec_cursor_ok(data@, *old(cur)),
    ensures
        spec_matches_vec(r, *final(cur), spec_nodes(data@, old(cur).pos as int, old(cur).line as int, binary)),
        r is Ok ==> spec_cursor_ok(data@, *final(cur)) && final(cur).pos > old(cur).pos,
{
    let nb = match read_counts_header(data, cur, "nodes header needs 4 fields", "invalid numNodes") {
        Ok(n) => n,
        Err(e) => return Err(e),
    };
    let ghost p1 = cur.pos as int;
    let ghost l1 = cur.line as int;
    let ghost step = spec_node_block_step(data@, binary);
    let mut nodes: Vec<MshNode> = Vec::new();
    let mut i: usize = 0;
    assert(nodes@.map_values(|e: MshNode| e@) =~= Seq::<NodeModel>::empty());
    while i < nb
        invariant
            spec_cursor_ok(data@, *cur),
            cur.pos >= p1,
            i <= nb,
            spec_repeat(step, p1, l1, i as nat) == Ok::<(Seq<NodeModel>, int, int), MeshErrorModel>((nodes@.map_values(|e: MshNode| e@), cur.pos as int, cur.line as int)),
        decreases nb - i,
    {
        let ghost p0 = cur.pos as int;
        let ghost l0 = cur.line as int;
        let ghost acc = nodes@.map_values(|e: MshNode| e@);
        let mut block = match read_node_block(data, cur, binary) {
            Ok(b) => b,
            Err(e) => {
                proof {
                    assert(step(i as int, p0, l0) == step(0, p0, l0));
                    lemma_repeat_error_stays(step, p1, l1, (i + 1) as nat, nb as nat);
                }
                return Err(e);
            },
        };
        let ghost bm = block@.map_values(|e: MshNode| e@);
        nodes.append(&mut block);
        proof {
            assert(step(i as int, p0, l0) == step(0, p0, l0));
            assert(nodes@.map_values(|e: MshNode| e@) =~= acc + bm);
        }
        i = i + 1;
    }
    if binary {
        let ln = match read_line(data, cur) {
            Ok(l) => l,
            Err(e) => return Err(e),
        };
        if !str_eq(trim(ln.as_str()), "$EndNodes") {
            match expect_line(data, cur, "$EndNodes") {
                Ok(()) => {},
                Err(e) => return Err(e),
            }
        }
    } else {
        match expect_line(data, cur, "$EndNodes") {
            Ok(()) => {},
            Err(e) => return Err(e),
        }
    }
    Ok(nodes)
}

// ---------------------------------------------------------------------------
// Elements
// ---------------------------------------------------------------------------

/// An element block's first line: `entityDim entityTag elementType
/// numElementsInBlock`.
pub open spec fn spec_element_block_header(data: Seq<u8>, pos: int, line: int) -> Step<(u32, i32, u32, usize)> {
    match spec_read_line(data, pos, line) {
        Err(e) => Err(e),
        Ok((h, p, l)) => {
            let bp = spec_split_whitespace(spec_trim(h));
            if bp.len() < 4 {
                Err(spec_parse_err(l, "element block header needs 4 fields"@))
            } else {
                match spec_u32_of(bp[0]) {
                    None => Err(spec_parse_err(l, "invalid entityDim"@)),
                    Some(dim) => match spec_i32_of(bp[1]) {
                        None => Err(spec_parse_err(l, "invalid entityTag"@)),
                        Some(etag) => match spec_u32_of(bp[2]) {
                            None => Err(spec_parse_err(l, "invalid elementType"@)),
                            Some(et) => match spec_usize_of(bp[3]) {
                                None => Err(spec_parse_err(l, "invalid numElementsInBlock"@)),
                                Some(n) => Ok(((dim, etag, et, n), p, l)),
                            },
                        },
                    },
                }
            }
        },
    }
}

/// The number of nodes read per element of a type: its node count, or 0
/// for an unknown type.
pub open spec fn spec_nodes_per_elem(et: u32) -> usize {
    match spec_num_nodes(et) {
        Some(n) => n,
        None => 0,
    }
}

/// An element line (ASCII) of a block.
pub open spec fn spec_element_step_ascii(data: Seq<u8>, dim: u32, etag: i32, et: u32) -> spec_fn(int, int, int) -> Step<Seq<ElementModel>> {
    |i: int, p: int, l: int|
        match spec_read_line(data, p, l) {
            Err(e) => Err(e),
            Ok((ln, p2, l2)) => match spec_element_line(ln, spec_nodes_per_elem(et) as nat) {
                Err(m) => Err(spec_parse_err(l2, m)),
                Ok(None) => Ok((Seq::empty(), p2, l2)),
                Ok(Some((t, ns))) => Ok((seq![ElementModel { tag: t, element_type: et, entity_dim: dim, entity_tag: etag, node_tags: ns }], p2, l2)),
            },
        }
}

/// An element (binary): its tag and node tags as little-endian 64-bit values.
pub open spec fn spec_element_step_binary(data: Seq<u8>, dim: u32, etag: i32, et: u32) -> spec_fn(int, int, int) -> Step<Seq<ElementModel>> {
    |i: int, p: int, l: int| {
        let npe = spec_nodes_per_elem(et);
        match spec_read_exact(data, p, l, (1 + npe) * 8) {
            Err(e) => Err(e),
            Ok((b, p2, l2)) => Ok((seq![ElementModel { tag: spec_read_u64(b, 0), element_type: et, entity_dim: dim, entity_tag: etag, node_tags: Seq::new(npe as nat, |k: int| spec_read_u64(b, 8 * (k + 1))) }], p2, l2)),
        }
    }
}

/// An element block: its first line, then its elements.
pub open spec fn spec_element_block_step(data: Seq<u8>, binary: bool) -> spec_fn(int, int, int) -> Step<Seq<ElementModel>> {
    |i: int, p: int, l: int|
        match spec_element_block_header(data, p, l) {
            Err(e) => Err(e),
            Ok(((dim, etag, et, n), p1, l1)) => spec_repeat(
                if binary { spec_element_step_binary(data, dim, etag, et) } else { spec_element_step_ascii(data, dim, etag, et) },
                p1, l1, n as nat),
        }
}

/// The end of a binary `$Elements` section: the line after the data; if it
/// is blank, the next one.
pub open spec fn spec_binary_elements_end(data: Seq<u8>, pos: int, line: int) -> Step<()> {
    match spec_read_line(data, pos, line) {
        Err(e) => Err(e),
        Ok((ln, p, l)) => {
            let t = spec_trim(ln);
            if t == "$EndElements"@ {
                Ok(((), p, l))
            } else if t.len() != 0 {
                Err(MeshErrorModel::UnexpectedSection { expected: "$EndElements"@, found: t })
            } else {
                spec_expect_line(data, p, l, "$EndElements"@)
            }
        },
    }
}

/// The `$Elements` section after its header line, ASCII or binary.
pub open spec fn spec_elements(data: Seq<u8>, pos: int, line: int, binary: bool) -> Step<Seq<ElementModel>> {
    match spec_counts_header(data, pos, line, "elements header needs 4 fields"@, "invalid numElements"@) {
        Err(e) => Err(e),
        Ok((nb, p1, l1)) => match spec_repeat(spec_element_block_step(data, binary), p1, l1, nb as nat) {
            Err(e) => Err(e),
            Ok((els, p2, l2)) => {
                let end = if binary {
                    spec_binary_elements_end(data, p2, l2)
                } else {
                    spec_expect_line(data, p2, l2, "$EndElements"@)
                };
                match end {
                    Err(e) => Err(e),
                    Ok((_, p3, l3)) => Ok((els, p3, l3)),
                }
            },
        },
    }
}

/// Read an element block's first line.
fn read_element_block_header(data: &[u8], cur: &mut Cursor) -> (r: Result<(u32, i32, u32, usize), MeshError>)
    requires
        spec_cursor_ok(data@, *old(cur)),
    ensures
        spec_matches(r, *final(cur), spec_element_block_header(data@, old(cur).pos as int, old(cur).line as int)),
        r is Ok ==> spec_cursor_ok(data@, *final(cur)) && final(cur).pos > old(cur).pos,
{
    let h = match read_line(data, cur) {
        Ok(l) => l,
        Err(e) => return Err(e),
    };
    let bp = split_whitespace(trim(h.as_str()));
    let ghost ws = bp@.map_values(|w: &str| w@);
    if bp.len() < 4 {
        return Err(MeshError::Parse { line: cur.line, message: String::from_str("element block header needs 4 fields") });
    }
    assert(ws[0] == bp@[0]@ && ws[1] == bp@[1]@ && ws[2] == bp@[2]@ && ws[3] == bp@[3]@);
    let dim = match parse_u32(bp[0]) {
        Some(v) => v,
        None => return Err(MeshError::Parse { line: cur.line, message: String::from_str("invalid entityDim") }),
    };
    let etag = match parse_i32(bp[1]) {
        Some(v) => v,
        None => return Err(MeshError::Parse { line: cur.line, message: String::from_str("invalid entityTag") }),
    };
    let et = match parse_u32(bp[2]) {
        Some(v) => v,
        None => return Err(MeshError::Parse { line: cur.line, message: String::from_str("invalid elementType") }),
    };
    let n = match parse_usize(bp[3]) {
        Some(v) => v,
        None => return Err(MeshError::Parse { line: cur.line, message: String::from_str("invalid numElementsInBlock") }),
    };
    Ok((dim, etag, et, n))
}

/// Read one element, ASCII or binary; `None` for a blank ASCII line.
fn read_one_element(data: &[u8], cur: &mut Cursor, binary: bool, dim: u32, etag: i32, et: u32) -> (r: Result<Option<MshElement>, MeshError>)
    requires
        spec_cursor_ok(data@, *old(cur)),
    ensures
        match (if binary { spec_element_step_binary(data@, dim, etag, et) } else { spec_element_step_ascii(data@, dim, etag, et) })(0, old(cur).pos as int, old(cur).line as int) {
            Ok((v, p, l)) => r matches Ok(x) && final(cur).pos == p && final(cur).line == l && match x {
                Some(e) => v == seq![e@],
                None => v == Seq::<ElementModel>::empty(),
            },
            Err(e) => r matches Err(x) && x@ == e,
        },
        r is Ok ==> spec_cursor_ok(data@, *final(cur)) && final(cur).pos > old(cur).pos,
{
    let npe = match num_nodes(et) {
        Some(n) => n,
        None => 0,
    };
    if binary {
        let b = match read_exact(data, cur, (1 + npe) * 8) {
            Ok(b) => b,
            Err(e) => return Err(e),
        };
        let tag = read_u64_le(b, 0);
        let mut node_tags: Vec<u64> = Vec::new();
        let mut k: usize = 0;
        while k < npe
            invariant
                npe <= 10,
                b@.len() == (1 + npe) * 8,
                k <= npe,
                node_tags@ =~= Seq::new(k as nat, |j: int| spec_read_u64(b@, 8 * (j + 1))),
            decreases npe - k,
        {
            node_tags.push(read_u64_le(b, 8 * (k + 1)));
            k = k + 1;
        }
        Ok(Some(MshElement { tag, element_type: et, entity_dim: dim, entity_tag: etag, node_tags }))
    } else {
        let ln = match read_line(data, cur) {
            Ok(l) => l,
            Err(e) => return Err(e),
        };
        match parse_element_line(ln.as_str(), npe) {
            Ok(None) => Ok(None),
            Ok(Some((tag, node_tags))) => Ok(Some(MshElement { tag, element_type: et, entity_dim: dim, entity_tag: etag, node_tags })),
            Err(m) => Err(MeshError::Parse { line: cur.line, message: m }),
        }
    }
}

/// Read one element block.
#[verifier::loop_isolation(false)]
fn read_element_block(data: &[u8], cur: &mut Cursor, binary: bool) -> (r: Result<Vec<MshElement>, MeshError>)
    requires
        spec_cursor_ok(data@, *old(cur)),
    ensures
        spec_matches_vec(r, *final(cur), (spec_element_block_step(data@, binary))(0, old(cur).pos as int, old(cur).line as int)),
        r is Ok ==> spec_cursor_ok(data@, *final(cur)) && final(cur).pos > old(cur).pos,
{
    let (dim, etag, et, n) = match read_element_block_header(data, cur) {
        Ok(h) => h,
        Err(e) => return Err(e),
    };
    let ghost p1 = cur.pos as int;
    let ghost l1 = cur.line as int;
    let ghost step = if binary { spec_element_step_binary(data@, dim, etag, et) } else { spec_element_step_ascii(data@, dim, etag, et) };
    let mut out: Vec<MshElement> = Vec::new();
    let mut i: usize = 0;
    assert(out@.map_values(|e: MshElement| e@) =~= Seq::<ElementModel>::empty());
    while i < n
        invariant
            spec_cursor_ok(data@, *cur),
            cur.pos >= p1,
            i <= n,
            spec_repeat(step, p1, l1, i as nat) == Ok::<(Seq<ElementModel>, int, int), MeshErrorModel>((out@.map_values(|e: MshElement| e@), cur.pos as int, cur.line as int)),
        decreases n - i,
    {
        let ghost p0 = cur.pos as int;
        let ghost l0 = cur.line as int;
        let ghost acc = out@.map_values(|e: MshElement| e@);
        match read_one_element(data, cur, binary, dim, etag, et) {
            Ok(Some(e)) => {
                out.push(e);
                proof {
                    assert(step(i as int, p0, l0) == step(0, p0, l0));
                    assert(out@.map_values(|e: MshElement| e@) =~= acc + seq![e@]);
                }
            },
            Ok(None) => {
                proof {
                    assert(step(i as int, p0, l0) == step(0, p0, l0));
                    assert(acc + Seq::<ElementModel>::empty() =~= acc);
                }
            },
            Err(e) => {
                proof {
                    assert(step(i as int, p0, l0) == step(0, p0, l0));
                    lemma_repeat_error_stays(step, p1, l1, (i + 1) as nat, n as nat);
                }
                return Err(e);
            },
        }
        i = i + 1;
    }
    Ok(out)
}

/// Read the `$Elements` section after its header line.
#[verifier::loop_isolation(false)]
pub fn read_elements(data: &[u8], cur: &mut Cursor, binary: bool) -> (r: Result<Vec<MshElement>, MeshError>)
    requires
        spec_cursor_ok(data@, *old(cur)),
    ensures
        spec_matches_vec(r, *final(cur), spec_elements(data@, old(cur).pos as int, old(cur).line as int, binary)),
        r is Ok ==> spec_cursor_ok(data@, *final(cur)) && final(cur).pos > old(cur).pos,
{
    let nb = match read_counts_header(data, cur, "elements header needs 4 fields", "invalid numElements") {
        Ok(n) => n,
        Err(e) => return Err(e),
    };
    let ghost p1 = cur.pos as int;
    let ghost l1 = cur.line as int;
    let ghost step = spec_element_block_step(data@, binary);
    let mut els: Vec<MshElement> = Vec::new();
    let mut i: usize = 0;
    assert(els@.map_values(|e: MshElement| e@) =~= Seq::<ElementModel>::empty());
    while i < nb
        invariant
            spec_cursor_ok(data@, *cur),
            cur.pos >= p1,
            i <= nb,
            spec_repeat(step, p1, l1, i as nat) == Ok::<(Seq<ElementModel>, int, int), MeshErrorModel>((els@.map_values(|e: MshElement| e@), cur.pos as int, cur.line as int)),
        decreases nb - i,
    {
        let ghost p0 = cur.pos as int;
        let ghost l0 = cur.line as int;
        let ghost acc = els@.map_values(|e: MshElement| e@);
        let mut block = match read_element_block(data, cur, binary) {
            Ok(b) => b,
            Err(e) => {
                proof {
                    assert(step(i as int, p0, l0) == step(0, p0, l0));
                    lemma_repeat_error_stays(step, p1, l1, (i + 1) as nat, nb as nat);
                }
                return Err(e);
            },
        };
        let ghost bm = block@.map_values(|e: MshElement| e@);
        els.append(&mut block);
        proof {
            assert(step(i as int, p0, l0) == step(0, p0, l0));
            assert(els@.map_values(|e: MshElement| e@) =~= acc + bm);
        }
        i = i + 1;
    }
    if binary {
        let ln = match read_line(data, cur) {
            Ok(l) => l,
            Err(e) => return Err(e),
        };
        let t = trim(ln.as_str());
        if !str_eq(t, "$EndElements") {
            if t.unicode_len() != 0 {
                return Err(MeshError::UnexpectedSection { expected: String::from_str("$EndElements"), found: String::from_str(t) });
            }
            match expect_line(data, cur, "$EndElements") {
                Ok(()) => {},
                Err(e) => return Err(e),
            }
        }
    } else {
        match expect_line(data, cur, "$EndElements") {
            Ok(()) => {},
            Err(e) => return Err(e),
        }
    }
    Ok(els)
}

/// If a prefix of the words fails to read, so do all of them.
pub proof fn lemma_all_usize_prefix_fails(ws: Seq<Seq<char>>, k: int)
    requires
        0 <= k < ws.len(),
        spec_all_usize(ws.take(k + 1)) is None,
    ensures
        spec_all_usize(ws) is None,
    decreases ws.len() - k,
{
    if k + 1 < ws.len() {
        assert(ws.take(k + 2).drop_last() =~= ws.take(k + 1));
        lemma_all_usize_prefix_fails(ws, k + 1);
    } else {
        assert(ws.take(k + 1) =~= ws);
    }
}

} // verus!
