//! The `.emsfld` field-data file: its 128-byte little-endian header, the
//! per-frequency block index, and the layout of a new file.
//!
//! File layout: `[header 128 bytes] [frequency table] [index table] [field blocks...]`.
use vstd::prelude::*;
use vstd::string::*;
use vstd::utf8::{decode_utf8, valid_utf8};

verus! {

/// Magic bytes at the start of every `.emsfld` file: `"EMSFLD\0\0"`.
pub const EMSFLD_MAGIC: [u8; 8] = [69, 77, 83, 70, 76, 68, 0, 0];

/// Byte order marker (checks little-endian encoding).
pub const BYTE_ORDER_MARKER: u32 = 0x01020304;

/// Size of the header on disk.
pub const HEADER_SIZE: usize = 128;

/// Errors while reading or checking a field file.
#[derive(Debug)]
pub enum FieldError {
    /// Reading failed; carries the reader's message.
    Io(String),
    InvalidMagic,
    InvalidByteOrder,
    UnsupportedVersion(u32),
    UnsupportedDataType(u32),
    FrequencyOutOfRange { index: usize, max: usize },
    InvalidData(String),
}

/// The 128-byte file header.
#[derive(Debug, Clone, Copy)]
pub struct EmsFldHeader {
    pub magic: [u8; 8],
    pub version: u32,
    pub byte_order: u32,
    /// 0=E-field, 1=H-field, 2=J-field, 3=Combined
    pub field_type: u32,
    /// 0=complex f64, 1=complex f32
    pub data_type: u32,
    pub num_nodes: u64,
    /// 3 for a vector field (x,y,z), 1 for a scalar field
    pub num_components: u32,
    pub num_frequencies: u32,
    /// 0=Hz, 1=kHz, 2=MHz, 3=GHz
    pub frequency_unit: u32,
    pub freq_table_offset: u64,
    pub index_offset: u64,
    pub data_offset: u64,
    pub mesh_file: [u8; 32],
    pub _reserved: [u8; 12],
}

/// Where one frequency's field block lies in the file.
#[derive(Debug, Clone, Copy)]
pub struct FieldBlockInfo {
    pub offset: u64,
    pub size_bytes: u64,
}

// ---------------------------------------------------------------------------
// Little-endian integers
// ---------------------------------------------------------------------------

/// The four little-endian bytes of `v`.
pub open spec fn spec_u32_le(v: u32) -> Seq<u8> {
    seq![v as u8, (v >> 8u32) as u8, (v >> 16u32) as u8, (v >> 24u32) as u8]
}

/// The eight little-endian bytes of `v`.
pub open spec fn spec_u64_le(v: u64) -> Seq<u8> {
    seq![
        v as u8,
        (v >> 8u64) as u8,
        (v >> 16u64) as u8,
        (v >> 24u64) as u8,
        (v >> 32u64) as u8,
        (v >> 40u64) as u8,
        (v >> 48u64) as u8,
        (v >> 56u64) as u8,
    ]
}

/// The `u32` whose little-endian bytes are `b0..b3`.
pub open spec fn spec_le_u32(b0: u8, b1: u8, b2: u8, b3: u8) -> u32 {
    (b0 as u32) | ((b1 as u32) << 8u32) | ((b2 as u32) << 16u32) | ((b3 as u32) << 24u32)
}

/// The `u64` whose little-endian bytes are `b0..b7`.
pub open spec fn spec_le_u64(b0: u8, b1: u8, b2: u8, b3: u8, b4: u8, b5: u8, b6: u8, b7: u8) -> u64 {
    (b0 as u64) | ((b1 as u64) << 8u64) | ((b2 as u64) << 16u64) | ((b3 as u64) << 24u64) | ((
    b4 as u64) << 32u64) | ((b5 as u64) << 40u64) | ((b6 as u64) << 48u64) | ((b7 as u64)
        << 56u64)
}

/// The `u32` stored little-endian at `b[at..at+4]`.
pub open spec fn spec_read_u32(b: Seq<u8>, at: int) -> u32 {
    spec_le_u32(b[at], b[at + 1], b[at + 2], b[at + 3])
}

/// The `u64` stored little-endian at `b[at..at+8]`.
pub open spec fn spec_read_u64(b: Seq<u8>, at: int) -> u64 {
    spec_le_u64(b[at], b[at + 1], b[at + 2], b[at + 3], b[at + 4], b[at + 5], b[at + 6], b[at + 7])
}

/// Encoding a `u32` and decoding it gives it back.
pub proof fn lemma_u32_roundtrip(v: u32)
    ensures
        spec_le_u32(v as u8, (v >> 8u32) as u8, (v >> 16u32) as u8, (v >> 24u32) as u8) == v,
{
    assert(((v as u8) as u32) | ((((v >> 8u32) as u8) as u32) << 8u32) | ((((v >> 16u32) as u8)
        as u32) << 16u32) | ((((v >> 24u32) as u8) as u32) << 24u32) == v) by (bit_vector);
}

/// Decoding four bytes and encoding the result gives the bytes back.
pub proof fn lemma_u32_bytes_roundtrip(b0: u8, b1: u8, b2: u8, b3: u8)
    ensures
        spec_u32_le(spec_le_u32(b0, b1, b2, b3)) == seq![b0, b1, b2, b3],
{
    let v = spec_le_u32(b0, b1, b2, b3);
    assert(v as u8 == b0 && (v >> 8u32) as u8 == b1 && (v >> 16u32) as u8 == b2 && (v
        >> 24u32) as u8 == b3) by (bit_vector)
        requires
            v == (b0 as u32) | ((b1 as u32) << 8u32) | ((b2 as u32) << 16u32) | ((b3 as u32)
                << 24u32),
    ;
    assert(spec_u32_le(v) =~= seq![b0, b1, b2, b3]);
}

/// Encoding a `u64` and decoding it gives it back.
pub proof fn lemma_u64_roundtrip(v: u64)
    ensures
        spec_le_u64(
            v as u8,
            (v >> 8u64) as u8,
            (v >> 16u64) as u8,
            (v >> 24u64) as u8,
            (v >> 32u64) as u8,
            (v >> 40u64) as u8,
            (v >> 48u64) as u8,
            (v >> 56u64) as u8,
        ) == v,
{
    assert(((v as u8) as u64) | ((((v >> 8u64) as u8) as u64) << 8u64) | ((((v >> 16u64) as u8)
        as u64) << 16u64) | ((((v >> 24u64) as u8) as u64) << 24u64) | ((((v >> 32u64) as u8)
        as u64) << 32u64) | ((((v >> 40u64) as u8) as u64) << 40u64) | ((((v >> 48u64) as u8)
        as u64) << 48u64) | ((((v >> 56u64) as u8) as u64) << 56u64) == v) by (bit_vector);
}

/// Decoding eight bytes and encoding the result gives the bytes back.
pub proof fn lemma_u64_bytes_roundtrip(b0: u8, b1: u8, b2: u8, b3: u8, b4: u8, b5: u8, b6: u8, b7: u8)
    ensures
        spec_u64_le(spec_le_u64(b0, b1, b2, b3, b4, b5, b6, b7)) == seq![b0, b1, b2, b3, b4, b5, b6, b7],
{
    let v = spec_le_u64(b0, b1, b2, b3, b4, b5, b6, b7);
    assert(v as u8 == b0 && (v >> 8u64) as u8 == b1 && (v >> 16u64) as u8 == b2 && (v
        >> 24u64) as u8 == b3 && (v >> 32u64) as u8 == b4 && (v >> 40u64) as u8 == b5 && (v
        >> 48u64) as u8 == b6 && (v >> 56u64) as u8 == b7) by (bit_vector)
        requires
            v == (b0 as u64) | ((b1 as u64) << 8u64) | ((b2 as u64) << 16u64) | ((b3 as u64)
                << 24u64) | ((b4 as u64) << 32u64) | ((b5 as u64) << 40u64) | ((b6 as u64)
                << 48u64) | ((b7 as u64) << 56u64),
    ;
    assert(spec_u64_le(v) =~= seq![b0, b1, b2, b3, b4, b5, b6, b7]);
}

/// The `u32` stored little-endian at `b[at..at+4]`.
pub fn read_u32_le(b: &[u8], at: usize) -> (r: u32)
    requires
        at + 4 <= b@.len(),
    ensures
        r == spec_read_u32(b@, at as int),
{
    (b[at] as u32) | ((b[at + 1] as u32) << 8u32) | ((b[at + 2] as u32) << 16u32) | ((b[at
        + 3] as u32) << 24u32)
}

/// The `u64` stored little-endian at `b[at..at+8]`.
pub fn read_u64_le(b: &[u8], at: usize) -> (r: u64)
    requires
        at + 8 <= b@.len(),
    ensures
        r == spec_read_u64(b@, at as int),
{
    (b[at] as u64) | ((b[at + 1] as u64) << 8u64) | ((b[at + 2] as u64) << 16u64) | ((b[at
        + 3] as u64) << 24u64) | ((b[at + 4] as u64) << 32u64) | ((b[at + 5] as u64) << 40u64)
        | ((b[at + 6] as u64) << 48u64) | ((b[at + 7] as u64) << 56u64)
}


// ---------------------------------------------------------------------------
// Header
// ---------------------------------------------------------------------------

/// `n` zero bytes.
pub open spec fn spec_zeros(n: nat) -> Seq<u8> {
    Seq::new(n, |i: int| 0u8)
}

/// The 128 bytes `to_bytes` writes for a header: the fields in order,
/// little-endian, then 16 zero bytes.
pub open spec fn spec_header_bytes(h: EmsFldHeader) -> Seq<u8> {
    h.magic@ + spec_u32_le(h.version) + spec_u32_le(h.byte_order) + spec_u32_le(h.field_type)
        + spec_u32_le(h.data_type) + spec_u64_le(h.num_nodes) + spec_u32_le(h.num_components)
        + spec_u32_le(h.num_frequencies) + spec_u32_le(h.frequency_unit) + spec_u64_le(
        h.freq_table_offset,
    ) + spec_u64_le(h.index_offset) + spec_u64_le(h.data_offset) + h.mesh_file@
        + h._reserved@ + spec_zeros(16)
}

/// `h` holds the fields stored in the first 112 bytes of `b`.
pub open spec fn spec_header_decodes(b: Seq<u8>, h: EmsFldHeader) -> bool {
    &&& h.magic@ == b.subrange(0, 8)
    &&& h.version == spec_read_u32(b, 8)
    &&& h.byte_order == spec_read_u32(b, 12)
    &&& h.field_type == spec_read_u32(b, 16)
    &&& h.data_type == spec_read_u32(b, 20)
    &&& h.num_nodes == spec_read_u64(b, 24)
    &&& h.num_components == spec_read_u32(b, 32)
    &&& h.num_frequencies == spec_read_u32(b, 36)
    &&& h.frequency_unit == spec_read_u32(b, 40)
    &&& h.freq_table_offset == spec_read_u64(b, 44)
    &&& h.index_offset == spec_read_u64(b, 52)
    &&& h.data_offset == spec_read_u64(b, 60)
    &&& h.mesh_file@ == b.subrange(68, 100)
    &&& h._reserved@ == b.subrange(100, 112)
}

/// A header that a reader accepts: the magic, version 1 and the byte order marker.
pub open spec fn spec_header_valid(h: EmsFldHeader) -> bool {
    h.magic@ == EMSFLD_MAGIC@ && h.version == 1 && h.byte_order == BYTE_ORDER_MARKER
}

/// The header's fields sit at fixed offsets in its bytes.
proof fn lemma_header_bytes_layout(h: EmsFldHeader)
    ensures
        ({
            let b = spec_header_bytes(h);
            &&& b.len() == 128
            &&& b.subrange(0, 8) == h.magic@
            &&& b.subrange(8, 12) == spec_u32_le(h.version)
            &&& b.subrange(12, 16) == spec_u32_le(h.byte_order)
            &&& b.subrange(16, 20) == spec_u32_le(h.field_type)
            &&& b.subrange(20, 24) == spec_u32_le(h.data_type)
            &&& b.subrange(24, 32) == spec_u64_le(h.num_nodes)
            &&& b.subrange(32, 36) == spec_u32_le(h.num_components)
            &&& b.subrange(36, 40) == spec_u32_le(h.num_frequencies)
            &&& b.subrange(40, 44) == spec_u32_le(h.frequency_unit)
            &&& b.subrange(44, 52) == spec_u64_le(h.freq_table_offset)
            &&& b.subrange(52, 60) == spec_u64_le(h.index_offset)
            &&& b.subrange(60, 68) == spec_u64_le(h.data_offset)
            &&& b.subrange(68, 100) == h.mesh_file@
            &&& b.subrange(100, 112) == h._reserved@
            &&& b.subrange(112, 128) == spec_zeros(16)
        }),
{
    let b = spec_header_bytes(h);
    assert(b.subrange(0, 8) =~= h.magic@);
    assert(b.subrange(8, 12) =~= spec_u32_le(h.version));
    assert(b.subrange(12, 16) =~= spec_u32_le(h.byte_order));
    assert(b.subrange(16, 20) =~= spec_u32_le(h.field_type));
    assert(b.subrange(20, 24) =~= spec_u32_le(h.data_type));
    assert(b.subrange(24, 32) =~= spec_u64_le(h.num_nodes));
    assert(b.subrange(32, 36) =~= spec_u32_le(h.num_components));
    assert(b.subrange(36, 40) =~= spec_u32_le(h.num_frequencies));
    assert(b.subrange(40, 44) =~= spec_u32_le(h.frequency_unit));
    assert(b.subrange(44, 52) =~= spec_u64_le(h.freq_table_offset));
    assert(b.subrange(52, 60) =~= spec_u64_le(h.index_offset));
    assert(b.subrange(60, 68) =~= spec_u64_le(h.data_offset));
    assert(b.subrange(68, 100) =~= h.mesh_file@);
    assert(b.subrange(100, 112) =~= h._reserved@);
    assert(b.subrange(112, 128) =~= spec_zeros(16));
}

/// The `u32` read at `at` from bytes holding `spec_u32_le(v)` there is `v`.
proof fn lemma_read_u32_of(b: Seq<u8>, at: int, v: u32)
    requires
        0 <= at,
        at + 4 <= b.len(),
        b.subrange(at, at + 4) == spec_u32_le(v),
    ensures
        spec_read_u32(b, at) == v,
{
    assert(b[at] == b.subrange(at, at + 4)[0]);
    assert(b[at + 1] == b.subrange(at, at + 4)[1]);
    assert(b[at + 2] == b.subrange(at, at + 4)[2]);
    assert(b[at + 3] == b.subrange(at, at + 4)[3]);
    lemma_u32_roundtrip(v);
}

/// The `u64` read at `at` from bytes holding `spec_u64_le(v)` there is `v`.
proof fn lemma_read_u64_of(b: Seq<u8>, at: int, v: u64)
    requires
        0 <= at,
        at + 8 <= b.len(),
        b.subrange(at, at + 8) == spec_u64_le(v),
    ensures
        spec_read_u64(b, at) == v,
{
    let s = b.subrange(at, at + 8);
    assert(b[at] == s[0] && b[at + 1] == s[1] && b[at + 2] == s[2] && b[at + 3] == s[3]);
    assert(b[at + 4] == s[4] && b[at + 5] == s[5] && b[at + 6] == s[6] && b[at + 7] == s[7]);
    lemma_u64_roundtrip(v);
}

/// Two headers decoded from the same bytes are the same header.
pub proof fn lemma_header_decodes_unique(b: Seq<u8>, h1: EmsFldHeader, h2: EmsFldHeader)
    requires
        spec_header_decodes(b, h1),
        spec_header_decodes(b, h2),
    ensures
        h1 == h2,
{
    assert(h1.magic@ =~= h2.magic@);
    assert(h1.mesh_file@ =~= h2.mesh_file@);
    assert(h1._reserved@ =~= h2._reserved@);
    vstd::array::axiom_array_ext_equal(h1.magic, h2.magic);
    vstd::array::axiom_array_ext_equal(h1.mesh_file, h2.mesh_file);
    vstd::array::axiom_array_ext_equal(h1._reserved, h2._reserved);
}

/// Reading what `to_bytes` wrote gives the header back: the bytes of a
/// valid header pass every check of `read_from`, and the only header they
/// decode to is the one written.
pub proof fn lemma_header_roundtrip(h: EmsFldHeader)
    requires
        spec_header_valid(h),
    ensures
        spec_header_bytes(h).len() == 128,
        spec_header_bytes(h).subrange(0, 8) == EMSFLD_MAGIC@,
        spec_read_u32(spec_header_bytes(h), 8) == 1,
        spec_read_u32(spec_header_bytes(h), 12) == BYTE_ORDER_MARKER,
        spec_header_decodes(spec_header_bytes(h), h),
        forall|g: EmsFldHeader| #[trigger] spec_header_decodes(spec_header_bytes(h), g) ==> g == h,
{
    let b = spec_header_bytes(h);
    lemma_header_bytes_layout(h);
    lemma_read_u32_of(b, 8, h.version);
    lemma_read_u32_of(b, 12, h.byte_order);
    lemma_read_u32_of(b, 16, h.field_type);
    lemma_read_u32_of(b, 20, h.data_type);
    lemma_read_u64_of(b, 24, h.num_nodes);
    lemma_read_u32_of(b, 32, h.num_components);
    lemma_read_u32_of(b, 36, h.num_frequencies);
    lemma_read_u32_of(b, 40, h.frequency_unit);
    lemma_read_u64_of(b, 44, h.freq_table_offset);
    lemma_read_u64_of(b, 52, h.index_offset);
    lemma_read_u64_of(b, 60, h.data_offset);
    assert forall|g: EmsFldHeader| #[trigger] spec_header_decodes(b, g) implies g == h by {
        lemma_header_decodes_unique(b, g, h);
    }
}

/// Writing a header that was read gives back the first 112 bytes it was
/// read from, followed by 16 zero bytes (the header's last 16 bytes are not
/// kept).
pub proof fn lemma_header_bytes_of_decoded(b: Seq<u8>, h: EmsFldHeader)
    requires
        b.len() >= 128,
        spec_header_decodes(b, h),
    ensures
        spec_header_bytes(h) == b.subrange(0, 112) + spec_zeros(16),
{
    lemma_u32_bytes_roundtrip(b[8], b[9], b[10], b[11]);
    lemma_u32_bytes_roundtrip(b[12], b[13], b[14], b[15]);
    lemma_u32_bytes_roundtrip(b[16], b[17], b[18], b[19]);
    lemma_u32_bytes_roundtrip(b[20], b[21], b[22], b[23]);
    lemma_u64_bytes_roundtrip(b[24], b[25], b[26], b[27], b[28], b[29], b[30], b[31]);
    lemma_u32_bytes_roundtrip(b[32], b[33], b[34], b[35]);
    lemma_u32_bytes_roundtrip(b[36], b[37], b[38], b[39]);
    lemma_u32_bytes_roundtrip(b[40], b[41], b[42], b[43]);
    lemma_u64_bytes_roundtrip(b[44], b[45], b[46], b[47], b[48], b[49], b[50], b[51]);
    lemma_u64_bytes_roundtrip(b[52], b[53], b[54], b[55], b[56], b[57], b[58], b[59]);
    lemma_u64_bytes_roundtrip(b[60], b[61], b[62], b[63], b[64], b[65], b[66], b[67]);
    lemma_header_bytes_layout(h);
    let out = spec_header_bytes(h);
    let want = b.subrange(0, 112) + spec_zeros(16);
    assert forall|i: int| 0 <= i < 128 implies out[i] == want[i] by {
        if i < 8 {
            assert(out[i] == out.subrange(0, 8)[i]);
        } else if i < 12 {
            assert(out[i] == out.subrange(8, 12)[i - 8]);
        } else if i < 16 {
            assert(out[i] == out.subrange(12, 16)[i - 12]);
        } else if i < 20 {
            assert(out[i] == out.subrange(16, 20)[i - 16]);
        } else if i < 24 {
            assert(out[i] == out.subrange(20, 24)[i - 20]);
        } else if i < 32 {
            assert(out[i] == out.subrange(24, 32)[i - 24]);
        } else if i < 36 {
            assert(out[i] == out.subrange(32, 36)[i - 32]);
        } else if i < 40 {
            assert(out[i] == out.subrange(36, 40)[i - 36]);
        } else if i < 44 {
            assert(out[i] == out.subrange(40, 44)[i - 40]);
        } else if i < 52 {
            assert(out[i] == out.subrange(44, 52)[i - 44]);
        } else if i < 60 {
            assert(out[i] == out.subrange(52, 60)[i - 52]);
        } else if i < 68 {
            assert(out[i] == out.subrange(60, 68)[i - 60]);
        } else if i < 100 {
            assert(out[i] == out.subrange(68, 100)[i - 68]);
        } else if i < 112 {
            assert(out[i] == out.subrange(100, 112)[i - 100]);
        } else {
            assert(out[i] == out.subrange(112, 128)[i - 112]);
        }
    }
    assert(out =~= want);
}

/// Append the little-endian bytes of a `u32`.
fn push_u32(out: &mut Vec<u8>, v: u32)
    ensures
        final(out)@ == old(out)@ + spec_u32_le(v),
{
    out.push(v as u8);
    out.push((v >> 8u32) as u8);
    out.push((v >> 16u32) as u8);
    out.push((v >> 24u32) as u8);
    assert(out@ =~= old(out)@ + spec_u32_le(v));
}

/// Append the little-endian bytes of a `u64`.
fn push_u64(out: &mut Vec<u8>, v: u64)
    ensures
        final(out)@ == old(out)@ + spec_u64_le(v),
{
    out.push(v as u8);
    out.push((v >> 8u64) as u8);
    out.push((v >> 16u64) as u8);
    out.push((v >> 24u64) as u8);
    out.push((v >> 32u64) as u8);
    out.push((v >> 40u64) as u8);
    out.push((v >> 48u64) as u8);
    out.push((v >> 56u64) as u8);
    assert(out@ =~= old(out)@ + spec_u64_le(v));
}

/// Append all bytes of `b`.
fn push_all(out: &mut Vec<u8>, b: &[u8])
    ensures
        final(out)@ == old(out)@ + b@,
{
    let mut i: usize = 0;
    while i < b.len()
        invariant
            i <= b@.len(),
            out@ == old(out)@ + b@.take(i as int),
        decreases b@.len() - i,
    {
        assert(b@.take(i + 1) =~= b@.take(i as int).push(b@[i as int]));
        out.push(b[i]);
        i = i + 1;
    }
    assert(b@.take(b@.len() as int) =~= b@);
}

/// The bytes `b[at..at+8]` as an array.
fn bytes8(b: &[u8], at: usize) -> (r: [u8; 8])
    requires
        at + 8 <= b@.len(),
    ensures
        r@ == b@.subrange(at as int, at + 8),
{
    let len = b.len();
    let mut r = [0u8; 8];
    let mut i: usize = 0;
    while i < 8
        invariant
            len == b@.len(),
            at + 8 <= b@.len(),
            i <= 8,
            r@.len() == 8,
            forall|k: int| 0 <= k < i ==> r@[k] == b@[at + k],
        decreases 8 - i,
    {
        r.set(i, b[at + i]);
        i = i + 1;
    }
    assert(r@ =~= b@.subrange(at as int, at + 8));
    r
}

/// The bytes `b[at..at+32]` as an array.
fn bytes32(b: &[u8], at: usize) -> (r: [u8; 32])
    requires
        at + 32 <= b@.len(),
    ensures
        r@ == b@.subrange(at as int, at + 32),
{
    let len = b.len();
    let mut r = [0u8; 32];
    let mut i: usize = 0;
    while i < 32
        invariant
            len == b@.len(),
            at + 32 <= b@.len(),
            i <= 32,
            r@.len() == 32,
            forall|k: int| 0 <= k < i ==> r@[k] == b@[at + k],
        decreases 32 - i,
    {
        r.set(i, b[at + i]);
        i = i + 1;
    }
    assert(r@ =~= b@.subrange(at as int, at + 32));
    r
}

/// The bytes `b[at..at+12]` as an array.
fn bytes12(b: &[u8], at: usize) -> (r: [u8; 12])
    requires
        at + 12 <= b@.len(),
    ensures
        r@ == b@.subrange(at as int, at + 12),
{
    let len = b.len();
    let mut r = [0u8; 12];
    let mut i: usize = 0;
    while i < 12
        invariant
            len == b@.len(),
            at + 12 <= b@.len(),
            i <= 12,
            r@.len() == 12,
            forall|k: int| 0 <= k < i ==> r@[k] == b@[at + k],
        decreases 12 - i,
    {
        r.set(i, b[at + i]);
        i = i + 1;
    }
    assert(r@ =~= b@.subrange(at as int, at + 12));
    r
}

impl EmsFldHeader {
    /// Read a header from the first 128 bytes of `bytes`. Fewer than 128
    /// bytes is a read error, as reading exactly 128 bytes from a file fails.
    /// The magic, the version (1) and the byte order marker are checked in
    /// that order.
    pub fn read_from(bytes: &[u8]) -> (r: Result<EmsFldHeader, FieldError>)
        ensures
            bytes@.len() < 128 ==> r matches Err(FieldError::Io(_)),
            bytes@.len() >= 128 ==> {
                let b = bytes@;
                if b.subrange(0, 8) != EMSFLD_MAGIC@ {
                    r matches Err(FieldError::InvalidMagic)
                } else if spec_read_u32(b, 8) != 1 {
                    r matches Err(FieldError::UnsupportedVersion(v)) && v == spec_read_u32(b, 8)
                } else if spec_read_u32(b, 12) != BYTE_ORDER_MARKER {
                    r matches Err(FieldError::InvalidByteOrder)
                } else {
                    r matches Ok(h) && spec_header_decodes(b, h)
                }
            },
    {
        if bytes.len() < HEADER_SIZE {
            return Err(FieldError::Io(String::from_str("failed to fill whole buffer")));
        }
        let magic = bytes8(bytes, 0);
        let mut same = true;
        let mut i: usize = 0;
        while i < 8
            invariant
                i <= 8,
                magic@.len() == 8,
                same == (forall|k: int| 0 <= k < i ==> magic@[k] == EMSFLD_MAGIC@[k]),
            decreases 8 - i,
        {
            if magic[i] != EMSFLD_MAGIC[i] {
                same = false;
            }
            i = i + 1;
        }
        if !same {
            return Err(FieldError::InvalidMagic);
        }
        assert(magic@ =~= EMSFLD_MAGIC@);
        let version = read_u32_le(bytes, 8);
        if version != 1 {
            return Err(FieldError::UnsupportedVersion(version));
        }
        let byte_order = read_u32_le(bytes, 12);
        if byte_order != BYTE_ORDER_MARKER {
            return Err(FieldError::InvalidByteOrder);
        }
        Ok(EmsFldHeader {
            magic,
            version,
            byte_order,
            field_type: read_u32_le(bytes, 16),
            data_type: read_u32_le(bytes, 20),
            num_nodes: read_u64_le(bytes, 24),
            num_components: read_u32_le(bytes, 32),
            num_frequencies: read_u32_le(bytes, 36),
            frequency_unit: read_u32_le(bytes, 40),
            freq_table_offset: read_u64_le(bytes, 44),
            index_offset: read_u64_le(bytes, 52),
            data_offset: read_u64_le(bytes, 60),
            mesh_file: bytes32(bytes, 68),
            _reserved: bytes12(bytes, 100),
        })
    }

    /// The 128 bytes of the header as written to a file.
    pub fn to_bytes(&self) -> (r: [u8; 128])
        ensures
            r@ == spec_header_bytes(*self),
    {
        let mut v: Vec<u8> = Vec::new();
        push_all(&mut v, self.magic.as_slice());
        push_u32(&mut v, self.version);
        push_u32(&mut v, self.byte_order);
        push_u32(&mut v, self.field_type);
        push_u32(&mut v, self.data_type);
        push_u64(&mut v, self.num_nodes);
        push_u32(&mut v, self.num_components);
        push_u32(&mut v, self.num_frequencies);
        push_u32(&mut v, self.frequency_unit);
        push_u64(&mut v, self.freq_table_offset);
        push_u64(&mut v, self.index_offset);
        push_u64(&mut v, self.data_offset);
        push_all(&mut v, self.mesh_file.as_slice());
        push_all(&mut v, self._reserved.as_slice());
        let ghost fields = v@;
        assert(fields.len() == 112);
        let mut k: usize = 0;
        assert(v@ =~= fields + spec_zeros(0));
        while k < 16
            invariant
                k <= 16,
                fields.len() == 112,
                v@ =~= fields + spec_zeros(k as nat),
            decreases 16 - k,
        {
            v.push(0u8);
            k = k + 1;
            assert(v@ =~= fields + spec_zeros(k as nat));
        }
        assert(v@ =~= spec_header_bytes(*self));
        assert(v@.len() == 128);
        let mut buf = [0u8; 128];
        let mut i: usize = 0;
        while i < 128
            invariant
                i <= 128,
                v@.len() == 128,
                buf@.len() == 128,
                forall|j: int| 0 <= j < i ==> buf@[j] == v@[j],
            decreases 128 - i,
        {
            buf.set(i, v[i]);
            i = i + 1;
        }
        assert(buf@ =~= v@);
        buf
    }
}


// ---------------------------------------------------------------------------
// Mesh file name, field type names
// ---------------------------------------------------------------------------

/// The text `String::from_utf8_lossy` decodes from `bytes` (invalid
/// sequences become U+FFFD).
pub uninterp spec fn spec_utf8_lossy(bytes: Seq<u8>) -> Seq<char>;

/// Calls `String::from_utf8_lossy`. Its result is named by
/// `spec_utf8_lossy`; as its documentation states, valid UTF-8 decodes
/// exactly.
#[verifier::external_body]
fn utf8_lossy(bytes: &[u8]) -> (r: String)
    ensures
        r@ == spec_utf8_lossy(bytes@),
        valid_utf8(bytes@) ==> r@ == decode_utf8(bytes@),
{
    String::from_utf8_lossy(bytes).into_owned()
}

/// The bytes of the mesh file name: up to the first zero byte, or all 32.
pub open spec fn spec_mesh_name_bytes(m: Seq<u8>) -> Seq<u8> {
    if exists|i: int| 0 <= i < m.len() && m[i] == 0 {
        m.take(
            choose|i: int| 0 <= i < m.len() && m[i] == 0 && forall|k: int| 0 <= k < i ==> m[k] != 0,
        )
    } else {
        m
    }
}

impl EmsFldHeader {
    /// The associated mesh file name: the bytes before the first zero byte,
    /// decoded as UTF-8 (lossily).
    pub fn mesh_filename(&self) -> (r: String)
        ensures
            r@ == spec_utf8_lossy(spec_mesh_name_bytes(self.mesh_file@)),
            valid_utf8(spec_mesh_name_bytes(self.mesh_file@)) ==> r@ == decode_utf8(
                spec_mesh_name_bytes(self.mesh_file@),
            ),
    {
        let m = self.mesh_file.as_slice();
        let mut end: usize = 0;
        while end < 32 && m[end] != 0
            invariant
                m@ == self.mesh_file@,
                m@.len() == 32,
                end <= 32,
                forall|k: int| 0 <= k < end ==> m@[k] != 0,
            decreases 32 - end,
        {
            end = end + 1;
        }
        proof {
            let p = |i: int| 0 <= i < m@.len() && m@[i] == 0 && forall|k: int| 0 <= k < i ==> m@[k] != 0;
            if end < 32 {
                assert(p(end as int));
                let j = choose|i: int| 0 <= i < m@.len() && m@[i] == 0 && forall|k: int| 0 <= k < i ==> m@[k] != 0;
                assert(p(j));
                if j < end {
                    assert(m@[j] != 0);
                }
                if end < j {
                    assert(m@[end as int] != 0);
                }
            } else {
                assert(m@.take(32) =~= m@);
            }
        }
        let name = &m[0..end];
        assert(name@ =~= spec_mesh_name_bytes(self.mesh_file@));
        utf8_lossy(name)
    }

    /// The number of hertz in one unit of the file's frequency table:
    /// 1 for Hz (0), 10^3 for kHz (1), 10^6 for MHz (2), 10^9 for GHz (3),
    /// and 1 for any other code.
    pub fn freq_multiplier(&self) -> (r: u64)
        ensures
            r == (if self.frequency_unit == 1 {
                1_000u64
            } else if self.frequency_unit == 2 {
                1_000_000u64
            } else if self.frequency_unit == 3 {
                1_000_000_000u64
            } else {
                1u64
            }),
    {
        match self.frequency_unit {
            1 => 1_000,
            2 => 1_000_000,
            3 => 1_000_000_000,
            _ => 1,
        }
    }
}

/// The name of a field type code.
pub open spec fn spec_field_type_name(field_type: u32) -> Seq<char> {
    if field_type == 0 {
        "E-field"@
    } else if field_type == 1 {
        "H-field"@
    } else if field_type == 2 {
        "J-field"@
    } else if field_type == 3 {
        "Combined"@
    } else {
        "Unknown"@
    }
}

/// The name of a field type code: 0 E-field, 1 H-field, 2 J-field,
/// 3 Combined, anything else Unknown.
pub fn field_type_name(field_type: u32) -> (r: &'static str)
    ensures
        r@ == spec_field_type_name(field_type),
{
    match field_type {
        0 => "E-field",
        1 => "H-field",
        2 => "J-field",
        3 => "Combined",
        _ => "Unknown",
    }
}

// ---------------------------------------------------------------------------
// Block index
// ---------------------------------------------------------------------------

/// The `i`-th 16-byte entry of an index table: offset, then size.
pub open spec fn spec_index_entry(b: Seq<u8>, i: int) -> FieldBlockInfo {
    FieldBlockInfo { offset: spec_read_u64(b, 16 * i), size_bytes: spec_read_u64(b, 16 * i + 8) }
}

/// Decode the index table of `count` entries (16 bytes each) from `bytes`.
/// Fewer bytes than the table needs is a read error.
pub fn decode_block_index(bytes: &[u8], count: usize) -> (r: Result<Vec<FieldBlockInfo>, FieldError>)
    ensures
        bytes@.len() < 16 * count ==> r matches Err(FieldError::Io(_)),
        bytes@.len() >= 16 * count ==> (r matches Ok(v) && v@.len() == count && forall|i: int|
            0 <= i < count ==> #[trigger] v@[i] == spec_index_entry(bytes@, i)),
{
    let len = bytes.len();
    if count > len / 16 {
        return Err(FieldError::Io(String::from_str("failed to fill whole buffer")));
    }
    let mut v: Vec<FieldBlockInfo> = Vec::new();
    let mut i: usize = 0;
    while i < count
        invariant
            len == bytes@.len(),
            count <= len / 16,
            i <= count,
            v@.len() == i,
            forall|k: int| 0 <= k < i ==> #[trigger] v@[k] == spec_index_entry(bytes@, k),
        decreases count - i,
    {
        let at = 16 * i;
        v.push(FieldBlockInfo { offset: read_u64_le(bytes, at), size_bytes: read_u64_le(bytes, at + 8) });
        i = i + 1;
    }
    Ok(v)
}

/// Check that field block `freq_idx` exists among `count` blocks; the
/// error names the largest valid index (0 when there is none).
pub fn check_block_index(count: usize, freq_idx: usize) -> (r: Result<(), FieldError>)
    ensures
        freq_idx < count <==> r is Ok,
        freq_idx >= count ==> (r matches Err(FieldError::FrequencyOutOfRange { index, max }) && index == freq_idx
            && max == (if count > 0 {
            count - 1
        } else {
            0
        })),
{
    if freq_idx >= count {
        return Err(FieldError::FrequencyOutOfRange { index: freq_idx, max: count.saturating_sub(1) });
    }
    Ok(())
}

/// The bytes one complex value takes for a data type code: 16 for complex
/// f64 (0), 8 for complex f32 (1); any other code is unsupported.
pub fn value_width(data_type: u32) -> (r: Result<usize, FieldError>)
    ensures
        data_type == 0 ==> r == Ok::<usize, FieldError>(16),
        data_type == 1 ==> r == Ok::<usize, FieldError>(8),
        data_type > 1 ==> (r matches Err(FieldError::UnsupportedDataType(t)) && t == data_type),
{
    match data_type {
        0 => Ok(16),
        1 => Ok(8),
        dt => Err(FieldError::UnsupportedDataType(dt)),
    }
}


// ---------------------------------------------------------------------------
// Layout of a new file
// ---------------------------------------------------------------------------

/// The 32-byte mesh-file field of a new header: the first bytes of the name
/// (at most 31, so that a zero byte always ends it), then zeros.
pub open spec fn spec_mesh_field(name: Seq<u8>) -> Seq<u8> {
    let n: int = if name.len() < 31 { name.len() as int } else { 31 };
    name.take(n) + spec_zeros((32 - n) as nat)
}

/// Offset of the index table for `num_frequencies` blocks: after the header
/// and the frequency table of one 8-byte value per block.
pub open spec fn spec_index_offset(num_frequencies: u32) -> int {
    HEADER_SIZE + 8 * num_frequencies
}

/// Offset of the first field block: after the index table of one 16-byte
/// entry per block.
pub open spec fn spec_data_offset(num_frequencies: u32) -> int {
    spec_index_offset(num_frequencies) + 16 * num_frequencies
}

/// Bytes per complex value: 8 for single precision, 16 for double.
pub open spec fn spec_bytes_per_value(use_f32: bool) -> int {
    if use_f32 { 8 } else { 16 }
}

/// Number of nodes of a new file: the values of its first block divided by
/// the components per node, or 0 without blocks.
pub open spec fn spec_nodes_of_blocks(num_blocks: usize, first_block_len: usize, num_components: u32) -> int {
    if num_blocks == 0 { 0 } else { first_block_len as int / num_components as int }
}

/// The index table of `n` blocks of `size` bytes each, laid out one after
/// another from `data_offset`: each entry is the block's offset and its size.
pub open spec fn spec_index_table(data_offset: int, size: int, n: nat) -> Seq<u8>
    decreases n,
{
    if n == 0 {
        Seq::empty()
    } else {
        spec_index_table(data_offset, size, (n - 1) as nat) + spec_u64_le(
            (data_offset + (n - 1) * size) as u64,
        ) + spec_u64_le(size as u64)
    }
}

proof fn lemma_index_table_layout(d: int, size: int, n: nat)
    ensures
        spec_index_table(d, size, n).len() == 16 * n,
        forall|i: int|
            0 <= i < n ==> {
                &&& (#[trigger] spec_index_table(d, size, n).subrange(16 * i, 16 * i + 8)) == spec_u64_le(
                    (d + i * size) as u64,
                )
                &&& spec_index_table(d, size, n).subrange(16 * i + 8, 16 * i + 16) == spec_u64_le(size as u64)
            },
    decreases n,
{
    if n > 0 {
        let m = (n - 1) as nat;
        lemma_index_table_layout(d, size, m);
        let prev = spec_index_table(d, size, m);
        let t = spec_index_table(d, size, n);
        assert forall|i: int| 0 <= i < n implies {
            &&& (#[trigger] t.subrange(16 * i, 16 * i + 8)) == spec_u64_le((d + i * size) as u64)
            &&& t.subrange(16 * i + 8, 16 * i + 16) == spec_u64_le(size as u64)
        } by {
            if i < m {
                assert(t.subrange(16 * i, 16 * i + 8) =~= prev.subrange(16 * i, 16 * i + 8));
                assert(t.subrange(16 * i + 8, 16 * i + 16) =~= prev.subrange(16 * i + 8, 16 * i + 16));
            } else {
                assert(t.subrange(16 * i, 16 * i + 8) =~= spec_u64_le((d + i * size) as u64));
                assert(t.subrange(16 * i + 8, 16 * i + 16) =~= spec_u64_le(size as u64));
            }
        }
    }
}

proof fn lemma_read_u64_of_le(b: Seq<u8>, at: int, v: u64)
    requires
        0 <= at,
        at + 8 <= b.len(),
        b.subrange(at, at + 8) == spec_u64_le(v),
    ensures
        spec_read_u64(b, at) == v,
{
    let w = b.subrange(at, at + 8);
    assert(b[at] == w[0] && b[at + 1] == w[1] && b[at + 2] == w[2] && b[at + 3] == w[3]);
    assert(b[at + 4] == w[4] && b[at + 5] == w[5] && b[at + 6] == w[6] && b[at + 7] == w[7]);
    lemma_u64_roundtrip(v);
}

/// Reading entry `i` of a written index table gives the offset and size
/// that were written for it.
pub proof fn lemma_index_table_reads_back(data_offset: int, size: int, n: nat, i: int)
    requires
        0 <= i < n,
        0 <= size,
        0 <= data_offset,
        data_offset + n * size <= u64::MAX,
    ensures
        spec_index_entry(spec_index_table(data_offset, size, n), i) == (FieldBlockInfo {
            offset: (data_offset + i * size) as u64,
            size_bytes: size as u64,
        }),
{
    lemma_index_table_layout(data_offset, size, n);
    let t = spec_index_table(data_offset, size, n);
    assert(t.subrange(16 * i, 16 * i + 8) == spec_u64_le((data_offset + i * size) as u64));
    lemma_read_u64_of_le(t, 16 * i, (data_offset + i * size) as u64);
    lemma_read_u64_of_le(t, 16 * i + 8, size as u64);
}

/// Everything about a new file that does not depend on the field values:
/// its header, the size of each block, and the bytes of its index table.
#[derive(Debug, Clone)]
pub struct NewFileLayout {
    pub header: EmsFldHeader,
    pub block_size: u64,
    pub index_table: Vec<u8>,
}

/// The bytes of a new file's mesh-file field.
fn mesh_field(name: &[u8]) -> (r: [u8; 32])
    ensures
        r@ == spec_mesh_field(name@),
{
    let copy_len: usize = if name.len() < 31 { name.len() } else { 31 };
    let mut r = [0u8; 32];
    let mut i: usize = 0;
    while i < copy_len
        invariant
            copy_len <= 31,
            copy_len <= name@.len(),
            i <= copy_len,
            r@.len() == 32,
            forall|k: int| 0 <= k < i ==> r@[k] == name@[k],
            forall|k: int| i <= k < 32 ==> r@[k] == 0,
        decreases copy_len - i,
    {
        r.set(i, name[i]);
        i = i + 1;
    }
    assert(r@ =~= spec_mesh_field(name@));
    r
}

/// The index table of `count` blocks of `size` bytes laid out one after
/// another from `data_offset`.
fn index_table(data_offset: u64, size: u64, count: usize) -> (r: Vec<u8>)
    requires
        data_offset + count * size <= u64::MAX,
    ensures
        r@ == spec_index_table(data_offset as int, size as int, count as nat),
{
    let mut out: Vec<u8> = Vec::new();
    let mut current: u64 = data_offset;
    let mut i: usize = 0;
    while i < count
        invariant
            i <= count,
            data_offset + count * size <= u64::MAX,
            current == data_offset + i * size,
            out@ == spec_index_table(data_offset as int, size as int, i as nat),
        decreases count - i,
    {
        assert(data_offset + (i + 1) * size <= data_offset + count * size) by (nonlinear_arith)
            requires
                i + 1 <= count,
        ;
        assert((i + 1) * size == i * size + size) by (nonlinear_arith);
        push_u64(&mut out, current);
        push_u64(&mut out, size);
        current = current + size;
        i = i + 1;
    }
    out
}

/// The layout of a new file of `num_blocks` field blocks, the first of which
/// holds `first_block_len` values: the header (version 1, data type 1 for
/// single precision and 0 for double, tables right after the header), the
/// size of each block, and the index table with the blocks one after another.
pub fn new_file_layout(
    field_type: u32,
    num_components: u32,
    frequency_unit: u32,
    mesh_filename: &str,
    num_blocks: usize,
    first_block_len: usize,
    use_f32: bool,
) -> (r: NewFileLayout)
    requires
        num_blocks > 0 ==> num_components > 0,
        spec_nodes_of_blocks(num_blocks, first_block_len, num_components) * num_components
            * spec_bytes_per_value(use_f32) <= u64::MAX,
        spec_data_offset(num_blocks as u32) + num_blocks * (spec_nodes_of_blocks(
            num_blocks,
            first_block_len,
            num_components,
        ) * num_components * spec_bytes_per_value(use_f32)) <= u64::MAX,
    ensures
        spec_header_valid(r.header),
        r.header.field_type == field_type,
        r.header.data_type == (if use_f32 { 1u32 } else { 0u32 }),
        r.header.num_nodes == spec_nodes_of_blocks(num_blocks, first_block_len, num_components),
        r.header.num_components == num_components,
        r.header.num_frequencies == num_blocks as u32,
        r.header.frequency_unit == frequency_unit,
        r.header.freq_table_offset == HEADER_SIZE,
        r.header.index_offset == spec_index_offset(num_blocks as u32),
        r.header.data_offset == spec_data_offset(num_blocks as u32),
        r.header.mesh_file@ == spec_mesh_field(mesh_filename.spec_bytes()),
        r.header._reserved@ == spec_zeros(12),
        r.block_size == r.header.num_nodes * num_components * spec_bytes_per_value(use_f32),
        r.index_table@ == spec_index_table(
            r.header.data_offset as int,
            r.block_size as int,
            num_blocks as nat,
        ),
{
    #[verifier::truncate]
    let num_frequencies: u32 = num_blocks as u32;
    let num_nodes: u64 = if num_blocks == 0 {
        0u64
    } else {
        (first_block_len / (num_components as usize)) as u64
    };
    let freq_table_size: u64 = num_frequencies as u64 * 8;
    let index_size: u64 = num_frequencies as u64 * 16;
    let freq_table_offset: u64 = 128;
    let index_offset: u64 = freq_table_offset + freq_table_size;
    let data_offset: u64 = index_offset + index_size;
    let bytes_per_value: u64 = if use_f32 { 8 } else { 16 };
    assert(num_nodes * num_components <= u64::MAX) by (nonlinear_arith)
        requires
            num_nodes * num_components * bytes_per_value <= u64::MAX,
            bytes_per_value >= 8,
    ;
    let block_size: u64 = num_nodes * (num_components as u64) * bytes_per_value;
    let header = EmsFldHeader {
        magic: EMSFLD_MAGIC,
        version: 1,
        byte_order: BYTE_ORDER_MARKER,
        field_type,
        data_type: if use_f32 { 1 } else { 0 },
        num_nodes,
        num_components,
        num_frequencies,
        frequency_unit,
        freq_table_offset,
        index_offset,
        data_offset,
        mesh_file: mesh_field(mesh_filename.as_bytes()),
        _reserved: [0u8; 12],
    };
    assert(header._reserved@ =~= spec_zeros(12));
    let index_table = index_table(data_offset, block_size, num_blocks);
    NewFileLayout { header, block_size, index_table }
}

} // verus!
