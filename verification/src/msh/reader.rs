//! Reading an MSH file held in memory: a cursor over its bytes that reads
//! lines (as a buffered reader's `read_line` does) and raw binary data.
use vstd::prelude::*;
use vstd::utf8::{decode_utf8, valid_utf8};

verus! {

/// Why a read failed.
#[derive(Debug, Clone, Copy, PartialEq, Eq, Structural)]
pub enum IoFailure {
    /// The data ended before what was to be read.
    UnexpectedEof,
    /// A line was not valid UTF-8.
    InvalidData,
}

/// Errors while reading a mesh.
#[derive(Debug)]
pub enum MeshError {
    Io(IoFailure),
    Parse { line: usize, message: String },
    UnexpectedSection { expected: String, found: String },
    UnsupportedVersion(String),
    InvalidBinary(String),
}

/// The mathematical value of a `MeshError`, and the one input the reader
/// does not accept: a section name whose first character is not ASCII, at
/// which taking the rest of the name after its first byte would panic.
pub enum MeshErrorModel {
    Io(IoFailure),
    Parse { line: usize, message: Seq<char> },
    UnexpectedSection { expected: Seq<char>, found: Seq<char> },
    UnsupportedVersion(Seq<char>),
    InvalidBinary(Seq<char>),
    SectionNameNotAscii,
}

impl View for MeshError {
    type V = MeshErrorModel;

    open spec fn view(&self) -> MeshErrorModel {
        match self {
            MeshError::Io(k) => MeshErrorModel::Io(*k),
            MeshError::Parse { line, message } => MeshErrorModel::Parse {
                line: *line,
                message: message@,
            },
            MeshError::UnexpectedSection { expected, found } => MeshErrorModel::UnexpectedSection {
                expected: expected@,
                found: found@,
            },
            MeshError::UnsupportedVersion(v) => MeshErrorModel::UnsupportedVersion(v@),
            MeshError::InvalidBinary(m) => MeshErrorModel::InvalidBinary(m@),
        }
    }
}

/// A read position in the data and the number of lines read so far.
pub struct Cursor {
    pub pos: usize,
    pub line: usize,
}

/// A cursor within the data; every line read took at least one byte.
pub open spec fn spec_cursor_ok(data: Seq<u8>, c: Cursor) -> bool {
    c.line <= c.pos <= data.len()
}

/// What a reading step yields: a value, the new position and line count;
/// or an error.
pub type Step<T> = Result<(T, int, int), MeshErrorModel>;

/// An exec result matches a step outcome: the same value (by view) and the
/// cursor where the step leaves it, or the same error.
pub open spec fn spec_matches<T: View>(r: Result<T, MeshError>, c: Cursor, s: Step<T::V>) -> bool {
    match s {
        Ok((v, p, l)) => r matches Ok(x) && x@ == v && c.pos == p && c.line == l,
        Err(e) => r matches Err(x) && x@ == e,
    }
}

/// An exec result holding a vector matches a step outcome holding the
/// sequence of its elements' views.
pub open spec fn spec_matches_vec<T: View>(
    r: Result<Vec<T>, MeshError>,
    c: Cursor,
    s: Step<Seq<T::V>>,
) -> bool {
    match s {
        Ok((v, p, l)) => r matches Ok(x) && x@.map_values(|e: T| e@) == v && c.pos == p && c.line
            == l,
        Err(e) => r matches Err(x) && x@ == e,
    }
}

/// An exec result holding integers matches a step outcome holding them.
pub open spec fn spec_matches_u64s(r: Result<Vec<u64>, MeshError>, c: Cursor, s: Step<Seq<u64>>) -> bool {
    match s {
        Ok((v, p, l)) => r matches Ok(x) && x@ == v && c.pos == p && c.line == l,
        Err(e) => r matches Err(x) && x@ == e,
    }
}

// ---------------------------------------------------------------------------
// Lines and raw bytes
// ---------------------------------------------------------------------------

/// The index of the first newline at or after `pos`, or the data's length.
pub open spec fn spec_line_end(data: Seq<u8>, pos: int) -> int
    decreases data.len() - pos,
{
    if pos >= data.len() {
        data.len() as int
    } else if data[pos] == 10 {
        pos
    } else {
        spec_line_end(data, pos + 1)
    }
}

proof fn lemma_line_end_bounds(data: Seq<u8>, pos: int)
    requires
        0 <= pos <= data.len(),
    ensures
        pos <= spec_line_end(data, pos) <= data.len(),
        spec_line_end(data, pos) < data.len() ==> data[spec_line_end(data, pos)] == 10,
        forall|k: int| pos <= k < spec_line_end(data, pos) ==> data[k] != 10,
    decreases data.len() - pos,
{
    if pos < data.len() && data[pos] != 10 {
        lemma_line_end_bounds(data, pos + 1);
    }
}

/// Reading one line, newline included, decoded as UTF-8: nothing left is
/// an unexpected end, and bytes that are not UTF-8 are invalid data.
pub open spec fn spec_read_line(data: Seq<u8>, pos: int, line: int) -> Step<Seq<char>> {
    if pos >= data.len() {
        Err(MeshErrorModel::Io(IoFailure::UnexpectedEof))
    } else {
        let e = spec_line_end(data, pos);
        let next = if e < data.len() {
            e + 1
        } else {
            data.len() as int
        };
        let b = data.subrange(pos, next);
        if valid_utf8(b) {
            Ok((decode_utf8(b), next, line + 1))
        } else {
            Err(MeshErrorModel::Io(IoFailure::InvalidData))
        }
    }
}

/// Reading exactly `n` bytes.
pub open spec fn spec_read_exact(data: Seq<u8>, pos: int, line: int, n: int) -> Step<Seq<u8>> {
    if pos + n > data.len() {
        Err(MeshErrorModel::Io(IoFailure::UnexpectedEof))
    } else {
        Ok((data.subrange(pos, pos + n), pos + n, line))
    }
}

/// Calls `std::str::from_utf8`: it accepts exactly the valid UTF-8 byte
/// sequences and decodes them.
#[verifier::external_body]
fn decode_utf8_line(bytes: &[u8]) -> (r: Option<String>)
    ensures
        r is Some <==> valid_utf8(bytes@),
        r matches Some(s) ==> s@ == decode_utf8(bytes@),
{
    match std::str::from_utf8(bytes) {
        Ok(s) => Some(s.to_string()),
        Err(_) => None,
    }
}

/// Read one line (with its newline) at the cursor.
pub fn read_line(data: &[u8], cur: &mut Cursor) -> (r: Result<String, MeshError>)
    requires
        spec_cursor_ok(data@, *old(cur)),
    ensures
        spec_matches(r, *final(cur), spec_read_line(data@, old(cur).pos as int, old(cur).line as int)),
        r is Ok ==> spec_cursor_ok(data@, *final(cur)) && final(cur).pos > old(cur).pos,
{
    let len = data.len();
    if cur.pos >= len {
        return Err(MeshError::Io(IoFailure::UnexpectedEof));
    }
    proof {
        lemma_line_end_bounds(data@, cur.pos as int);
    }
    let mut e = cur.pos;
    while e < len && data[e] != 10
        invariant
            len == data@.len(),
            old(cur).pos <= e <= len,
            cur.pos == old(cur).pos,
            spec_line_end(data@, old(cur).pos as int) == spec_line_end(data@, e as int),
        decreases len - e,
    {
        e = e + 1;
    }
    let next = if e < len {
        e + 1
    } else {
        len
    };
    let bytes = &data[cur.pos..next];
    match decode_utf8_line(bytes) {
        Some(s) => {
            cur.pos = next;
            cur.line = cur.line + 1;
            Ok(s)
        },
        None => Err(MeshError::Io(IoFailure::InvalidData)),
    }
}

/// Read exactly `n` bytes at the cursor.
pub fn read_exact<'a>(data: &'a [u8], cur: &mut Cursor, n: usize) -> (r: Result<&'a [u8], MeshError>)
    requires
        spec_cursor_ok(data@, *old(cur)),
    ensures
        match spec_read_exact(data@, old(cur).pos as int, old(cur).line as int, n as int) {
            Ok((v, p, l)) => r matches Ok(x) && x@ == v && final(cur).pos == p && final(cur).line
                == l,
            Err(e) => r matches Err(x) && x@ == e,
        },
        r is Ok ==> spec_cursor_ok(data@, *final(cur)) && final(cur).pos >= old(cur).pos,
{
    let len = data.len();
    if n > len - cur.pos {
        return Err(MeshError::Io(IoFailure::UnexpectedEof));
    }
    let b = &data[cur.pos..cur.pos + n];
    cur.pos = cur.pos + n;
    Ok(b)
}

// ---------------------------------------------------------------------------
// Repetition
// ---------------------------------------------------------------------------

/// `k` steps in a row, each given its index and the cursor the previous one
/// left; the values are concatenated. The first error ends the repetition.
pub open spec fn spec_repeat<T>(
    step: spec_fn(int, int, int) -> Step<Seq<T>>,
    pos: int,
    line: int,
    k: nat,
) -> Step<Seq<T>>
    decreases k,
{
    if k == 0 {
        Ok((Seq::empty(), pos, line))
    } else {
        match spec_repeat(step, pos, line, (k - 1) as nat) {
            Err(e) => Err(e),
            Ok((acc, p, l)) => match step(k - 1, p, l) {
                Err(e) => Err(e),
                Ok((more, p2, l2)) => Ok((acc + more, p2, l2)),
            },
        }
    }
}

/// Once a repetition has failed, more steps do not change its outcome.
pub proof fn lemma_repeat_error_stays<T>(
    step: spec_fn(int, int, int) -> Step<Seq<T>>,
    pos: int,
    line: int,
    i: nat,
    k: nat,
)
    requires
        i <= k,
        spec_repeat(step, pos, line, i) is Err,
    ensures
        spec_repeat(step, pos, line, k) == spec_repeat(step, pos, line, i),
    decreases k - i,
{
    if i < k {
        lemma_repeat_error_stays(step, pos, line, i, (k - 1) as nat);
    }
}

} // verus!
