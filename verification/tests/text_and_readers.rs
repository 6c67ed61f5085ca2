use emstudio::design::{concat2, contains_string};
use emstudio::emsfld::{check_block_index, read_u32_le, read_u64_le, value_width, FieldError};
use emstudio::msh::reader::{read_exact, read_line, Cursor, MeshError};
use emstudio::msh::sections::{read_elements, read_entities, read_nodes};
use emstudio::msh::{parse_element_line, parse_entity_line, parse_physical_name_line, read_physical_names, NodeCoords};
use emstudio::settings::{
    default_curved_order, default_ref_impedance, default_s_matrix_type, default_temperature, default_true,
};
use emstudio::text::{
    count_char, find_char, is_whitespace, parse_i32, parse_u32, parse_u64, parse_usize, split_whitespace,
    splitn3_space, starts_with, str_eq, to_decimal, to_decimal_padded, trim, trim_bounds, trim_char,
};

#[test]
fn text_helpers_agree_with_std() {
    for s in ["", "  a b  ", "\u{2003}x\t", "abc", " \n "] {
        assert_eq!(trim(s), s.trim());
        let (i, j) = trim_bounds(s);
        assert_eq!(s.chars().skip(i).take(j - i).collect::<String>(), s.trim());
        assert_eq!(split_whitespace(s), s.split_whitespace().collect::<Vec<_>>());
        assert_eq!(splitn3_space(s), s.splitn(3, ' ').collect::<Vec<_>>());
    }
    assert_eq!(splitn3_space("3 1 \"a b\""), vec!["3", "1", "\"a b\""]);
    assert_eq!(trim_char("\"\"mat:x\"", '"'), "mat:x");
    assert!(is_whitespace('\u{3000}') && !is_whitespace('x'));
    assert!(str_eq("ab", "ab") && !str_eq("ab", "abc"));
    assert!(starts_with("mat:copper", "mat:") && !starts_with("ma", "mat:"));
    assert_eq!(find_char("a,b,c", ','), Some(1));
    assert_eq!(find_char("abc", ','), None);
    assert_eq!(count_char("a,b,c", ','), 2);
    assert_eq!(to_decimal(0), "0");
    assert_eq!(to_decimal(u128::MAX), u128::MAX.to_string());
    assert_eq!(to_decimal_padded(7, 4), "0007");
    assert_eq!(to_decimal_padded(12345, 2), "12345");
    assert_eq!(concat2("ab", "cd"), "abcd");
    assert!(contains_string(&vec!["x".to_string(), "y".to_string()], "y"));
}

#[test]
fn number_parsing_agrees_with_std() {
    for s in ["0", "42", "+7", "-1", "", "18446744073709551615", "18446744073709551616", "4294967296", "1e3", " 1"] {
        assert_eq!(parse_u64(s), s.parse::<u64>().ok(), "{s}");
        assert_eq!(parse_usize(s), s.parse::<usize>().ok(), "{s}");
        assert_eq!(parse_u32(s), s.parse::<u32>().ok(), "{s}");
        assert_eq!(parse_i32(s), s.parse::<i32>().ok(), "{s}");
    }
    assert_eq!(parse_i32("-2147483648"), Some(i32::MIN));
    assert_eq!(parse_i32("-2147483649"), None);
}

#[test]
fn little_endian_reads() {
    let b = [1u8, 2, 3, 4, 5, 6, 7, 8, 9];
    assert_eq!(read_u32_le(&b, 1), u32::from_le_bytes([2, 3, 4, 5]));
    assert_eq!(read_u64_le(&b, 1), u64::from_le_bytes([2, 3, 4, 5, 6, 7, 8, 9]));
    assert!(check_block_index(3, 2).is_ok());
    assert!(matches!(check_block_index(3, 3), Err(FieldError::FrequencyOutOfRange { index: 3, max: 2 })));
    assert!(matches!(check_block_index(0, 0), Err(FieldError::FrequencyOutOfRange { index: 0, max: 0 })));
    assert_eq!(value_width(0).unwrap(), 16);
    assert_eq!(value_width(1).unwrap(), 8);
    assert!(matches!(value_width(2), Err(FieldError::UnsupportedDataType(2))));
}

#[test]
fn line_and_byte_reading() {
    let data = b"first\nsecond\n\x01\x02";
    let mut cur = Cursor { pos: 0, line: 0 };
    assert_eq!(read_line(data, &mut cur).unwrap(), "first\n");
    assert_eq!((cur.pos, cur.line), (6, 1));
    assert_eq!(read_line(data, &mut cur).unwrap(), "second\n");
    assert_eq!(read_exact(data, &mut cur, 2).unwrap(), &[1u8, 2]);
    assert!(matches!(read_line(data, &mut cur), Err(MeshError::Io(_))));
    let mut c2 = Cursor { pos: 0, line: 0 };
    assert!(read_exact(data, &mut c2, 100).is_err());
    let bad = [0xFFu8, b'\n'];
    let mut c3 = Cursor { pos: 0, line: 0 };
    assert!(read_line(&bad, &mut c3).is_err());
}

#[test]
fn line_parsers() {
    let e = parse_entity_line("1 0.0 0.0 0.0 10.0 10.0 10.0 2 5 -6 0", 3).unwrap();
    assert_eq!((e.dimension, e.tag), (3, 1));
    assert_eq!(e.physical_tags, vec![5, -6]);
    assert!(parse_entity_line("x", 3).is_none());

    let p = parse_physical_name_line("2 3 \"bc:PEC_GND\"").unwrap();
    assert_eq!((p.dimension, p.tag, p.name.as_str()), (2, 3, "bc:PEC_GND"));
    assert!(parse_physical_name_line("2 x \"a\"").is_err());

    assert_eq!(parse_element_line("7 1 2 3 4", 4).unwrap(), Some((7, vec![1, 2, 3, 4])));
    assert_eq!(parse_element_line("   ", 4).unwrap(), None);
    assert_eq!(parse_element_line("7 1 2", 4).unwrap(), Some((7, vec![1, 2])));
    assert_eq!(parse_element_line("7 x 2", 4), Err("invalid node tag in element".to_string()));
    assert_eq!(parse_element_line("t 1", 4), Err("invalid element tag".to_string()));
}

#[test]
fn section_readers() {
    let names = b"2\n3 1 \"mat:a\"\n2 2 \"bc:b\"\n$EndPhysicalNames\n";
    let mut cur = Cursor { pos: 0, line: 0 };
    let v = read_physical_names(names, &mut cur).unwrap();
    assert_eq!(v.len(), 2);
    assert_eq!(v[1].name, "bc:b");

    let ents = b"0 0 0 1\n4 0 0 0 1 1 1 1 9 0\n$EndEntities\n";
    let mut cur = Cursor { pos: 0, line: 0 };
    let v = read_entities(ents, &mut cur).unwrap();
    assert_eq!(v.len(), 1);
    assert_eq!(v[0].physical_tags, vec![9]);

    let nodes = b"1 2 1 2\n3 1 0 2\n1\n2\n0 0 0\n1 2 3\n$EndNodes\n";
    let mut cur = Cursor { pos: 0, line: 0 };
    let v = read_nodes(nodes, &mut cur, false).unwrap();
    assert_eq!(v.len(), 2);
    match &v[1].coords {
        NodeCoords::Text { x, y, z, .. } => assert_eq!((x.as_str(), y.as_str(), z.as_str()), ("1", "2", "3")),
        _ => panic!("expected text coordinates"),
    }

    let els = b"1 1 1 1\n3 1 4 1\n1 1 2 3 4\n$EndElements\n";
    let mut cur = Cursor { pos: 0, line: 0 };
    let v = read_elements(els, &mut cur, false).unwrap();
    assert_eq!(v[0].node_tags, vec![1, 2, 3, 4]);
    assert_eq!((v[0].entity_dim, v[0].entity_tag, v[0].element_type), (3, 1, 4));

    let wrong_end = b"0 0 0 0\n$EndNodesX\n";
    let mut cur = Cursor { pos: 0, line: 0 };
    assert!(matches!(read_nodes(wrong_end, &mut cur, false), Err(MeshError::UnexpectedSection { .. })));
}

#[test]
fn setting_fallbacks() {
    assert!(default_true());
    assert_eq!(default_curved_order(), "1st");
    assert_eq!(default_ref_impedance(), "50ohm");
    assert_eq!(default_s_matrix_type(), "Modal");
    assert_eq!(default_temperature(), "22cel");
}
