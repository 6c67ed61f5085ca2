use emstudio::emsfld::{
    decode_block_index, field_type_name, new_file_layout, EmsFldHeader, FieldError, BYTE_ORDER_MARKER, EMSFLD_MAGIC,
};

fn sample_header() -> EmsFldHeader {
    let mut mesh_file = [0u8; 32];
    mesh_file[..10].copy_from_slice(b"final.msh\0");
    EmsFldHeader {
        magic: EMSFLD_MAGIC,
        version: 1,
        byte_order: BYTE_ORDER_MARKER,
        field_type: 0,
        data_type: 0,
        num_nodes: 100,
        num_components: 3,
        num_frequencies: 5,
        frequency_unit: 3, // GHz
        freq_table_offset: 128,
        index_offset: 168,
        data_offset: 248,
        mesh_file,
        _reserved: [0u8; 12],
    }
}

#[test]
fn header_roundtrip() {
    let header = sample_header();

    let bytes = header.to_bytes();
    assert_eq!(bytes.len(), 128);

    let parsed = EmsFldHeader::read_from(&bytes[..]).unwrap();

    assert_eq!(parsed.version, 1);
    assert_eq!(parsed.num_nodes, 100);
    assert_eq!(parsed.num_components, 3);
    assert_eq!(parsed.num_frequencies, 5);
    assert_eq!(parsed.frequency_unit, 3);
    assert_eq!(parsed.mesh_filename(), "final.msh");
    assert!((parsed.freq_multiplier() as f64 - 1e9).abs() < 1.0);
}

#[test]
fn header_bytes_layout() {
    let bytes = sample_header().to_bytes();
    assert_eq!(&bytes[0..8], b"EMSFLD\0\0");
    assert_eq!(&bytes[8..12], &1u32.to_le_bytes());
    assert_eq!(&bytes[12..16], &0x01020304u32.to_le_bytes());
    assert_eq!(&bytes[24..32], &100u64.to_le_bytes());
    assert_eq!(&bytes[68..78], b"final.msh\0");
    assert!(bytes[112..128].iter().all(|b| *b == 0));
}

#[test]
fn header_errors() {
    let good = sample_header().to_bytes();
    assert!(matches!(EmsFldHeader::read_from(&good[..100]), Err(FieldError::Io(_))));

    let mut bad_magic = good;
    bad_magic[0] = b'X';
    assert!(matches!(EmsFldHeader::read_from(&bad_magic[..]), Err(FieldError::InvalidMagic)));

    let mut bad_version = good;
    bad_version[8] = 2;
    assert!(matches!(EmsFldHeader::read_from(&bad_version[..]), Err(FieldError::UnsupportedVersion(2))));

    let mut bad_order = good;
    bad_order[12] = 0;
    assert!(matches!(EmsFldHeader::read_from(&bad_order[..]), Err(FieldError::InvalidByteOrder)));
}

#[test]
fn freq_multipliers_and_names() {
    let mut h = sample_header();
    for (unit, m) in [(0u32, 1u64), (1, 1_000), (2, 1_000_000), (3, 1_000_000_000), (9, 1)] {
        h.frequency_unit = unit;
        assert_eq!(h.freq_multiplier(), m);
    }
    assert_eq!(field_type_name(0), "E-field");
    assert_eq!(field_type_name(1), "H-field");
    assert_eq!(field_type_name(2), "J-field");
    assert_eq!(field_type_name(3), "Combined");
    assert_eq!(field_type_name(4), "Unknown");
}

#[test]
fn mesh_filename_is_lossy_and_stops_at_zero() {
    let mut h = sample_header();
    h.mesh_file = [0u8; 32];
    h.mesh_file[..4].copy_from_slice(&[b'a', 0xFF, b'b', 0]);
    assert_eq!(h.mesh_filename(), "a\u{FFFD}b");
    h.mesh_file = [b'x'; 32];
    assert_eq!(h.mesh_filename().len(), 32);
}

#[test]
fn block_index_decoding() {
    let mut bytes = Vec::new();
    for v in [248u64, 2400, 2648, 2400] {
        bytes.extend_from_slice(&v.to_le_bytes());
    }
    let idx = decode_block_index(&bytes, 2).unwrap();
    assert_eq!(idx.len(), 2);
    assert_eq!(idx[0].offset, 248);
    assert_eq!(idx[0].size_bytes, 2400);
    assert_eq!(idx[1].offset, 2648);
    assert!(matches!(decode_block_index(&bytes, 3), Err(FieldError::Io(_))));
}

#[test]
fn new_file_layout_places_tables_after_header() {
    // Three frequencies of 4 nodes with 3 components, double precision.
    let layout = new_file_layout(1, 3, 2, "final.msh", 3, 12, false);
    let h = layout.header;
    assert_eq!(h.magic, EMSFLD_MAGIC);
    assert_eq!(h.version, 1);
    assert_eq!(h.byte_order, BYTE_ORDER_MARKER);
    assert_eq!(h.field_type, 1);
    assert_eq!(h.data_type, 0);
    assert_eq!(h.num_nodes, 4);
    assert_eq!(h.num_components, 3);
    assert_eq!(h.num_frequencies, 3);
    assert_eq!(h.frequency_unit, 2);
    assert_eq!(h.freq_table_offset, 128);
    assert_eq!(h.index_offset, 128 + 3 * 8);
    assert_eq!(h.data_offset, 128 + 3 * 24);
    assert_eq!(h.mesh_filename(), "final.msh");
    assert_eq!(layout.block_size, 4 * 3 * 16);

    let index = decode_block_index(&layout.index_table, 3).unwrap();
    assert_eq!(index.len(), 3);
    for (i, info) in index.iter().enumerate() {
        assert_eq!(info.offset, 200 + i as u64 * 192);
        assert_eq!(info.size_bytes, 192);
    }
}

#[test]
fn new_file_layout_single_precision_and_long_name() {
    let name = "a_very_long_mesh_file_name_that_exceeds.msh";
    let layout = new_file_layout(0, 1, 3, name, 1, 10, true);
    assert_eq!(layout.header.data_type, 1);
    assert_eq!(layout.header.num_nodes, 10);
    assert_eq!(layout.block_size, 80);
    // At most 31 bytes of the name are kept, and a zero byte ends them.
    assert_eq!(layout.header.mesh_filename(), &name[..31]);
    assert_eq!(layout.header.mesh_file[31], 0);

    let parsed = EmsFldHeader::read_from(&layout.header.to_bytes()).unwrap();
    assert_eq!(parsed.data_offset, 128 + 24);
}

#[test]
fn new_file_layout_without_blocks() {
    let layout = new_file_layout(0, 0, 0, "", 0, 0, false);
    assert_eq!(layout.header.num_nodes, 0);
    assert_eq!(layout.header.num_frequencies, 0);
    assert_eq!(layout.header.data_offset, 128);
    assert_eq!(layout.block_size, 0);
    assert!(layout.index_table.is_empty());
}
