use emstudio::vtk::VtkTopology;
use emstudio::msh::element_types;
use emstudio::msh::{MshMesh, MshNode, NodeCoords};

fn sample_ascii_msh() -> &'static str {
    "$MeshFormat\n\
     4.1 0 8\n\
     $EndMeshFormat\n\
     $PhysicalNames\n\
     3\n\
     3 1 \"mat:vacuum\"\n\
     3 2 \"mat:copper\"\n\
     2 3 \"bc:PEC_GND\"\n\
     $EndPhysicalNames\n\
     $Entities\n\
     0 0 0 2\n\
     1 0.0 0.0 0.0 10.0 10.0 10.0 1 1 0\n\
     2 2.0 2.0 2.0 8.0 8.0 8.0 1 2 0\n\
     $EndEntities\n\
     $Nodes\n\
     2 8 1 8\n\
     3 1 0 4\n\
     1\n\
     2\n\
     3\n\
     4\n\
     0.0 0.0 0.0\n\
     10.0 0.0 0.0\n\
     5.0 10.0 0.0\n\
     5.0 5.0 10.0\n\
     3 2 0 4\n\
     5\n\
     6\n\
     7\n\
     8\n\
     2.0 2.0 2.0\n\
     8.0 2.0 2.0\n\
     5.0 8.0 2.0\n\
     5.0 5.0 8.0\n\
     $EndNodes\n\
     $Elements\n\
     2 2 1 2\n\
     3 1 4 1\n\
     1 1 2 3 4\n\
     3 2 4 1\n\
     2 5 6 7 8\n\
     $EndElements\n"
}

/// The coordinates of a node as floating-point numbers.
fn position(n: &MshNode) -> [f64; 3] {
    match &n.coords {
        NodeCoords::Text { x, y, z, .. } => [x.parse().unwrap(), y.parse().unwrap(), z.parse().unwrap()],
        NodeCoords::Bits { x, y, z } => [f64::from_bits(*x), f64::from_bits(*y), f64::from_bits(*z)],
    }
}

#[test]
fn parse_ascii_mesh() {
    let data = sample_ascii_msh();
    let mesh = MshMesh::read_from(data.as_bytes()).unwrap();

    assert_eq!(mesh.version, "4.1");
    assert!(!mesh.binary);
    assert_eq!(mesh.physical_names.len(), 3);
    assert_eq!(mesh.physical_names[0].name, "mat:vacuum");
    assert_eq!(mesh.physical_names[0].dimension, 3);
    assert_eq!(mesh.physical_names[1].name, "mat:copper");
    assert_eq!(mesh.physical_names[2].name, "bc:PEC_GND");
    assert_eq!(mesh.nodes.len(), 8);
    assert_eq!(mesh.elements.len(), 2);

    let n1 = position(mesh.node_by_tag(1).unwrap());
    assert!((n1[0] - 0.0).abs() < 1e-10);
    assert!((n1[1] - 0.0).abs() < 1e-10);

    let n4 = position(mesh.node_by_tag(4).unwrap());
    assert!((n4[2] - 10.0).abs() < 1e-10);

    assert_eq!(mesh.elements[0].element_type, element_types::TET4);
    assert_eq!(mesh.elements[0].node_tags, vec![1, 2, 3, 4]);
    assert_eq!(mesh.elements[1].node_tags, vec![5, 6, 7, 8]);
}

#[test]
fn tetrahedra_filter() {
    let mesh = MshMesh::read_from(sample_ascii_msh().as_bytes()).unwrap();
    let tets = mesh.tetrahedra();
    assert_eq!(tets.len(), 2);
}

#[test]
fn physical_name_filter() {
    let mesh = MshMesh::read_from(sample_ascii_msh().as_bytes()).unwrap();

    let mat_elements = mesh.elements_by_physical("mat:");
    assert_eq!(mat_elements.len(), 2);

    let bc_elements = mesh.elements_by_physical("bc:");
    assert_eq!(bc_elements.len(), 0);
}

#[test]
fn node_index_lookup() {
    let mesh = MshMesh::read_from(sample_ascii_msh().as_bytes()).unwrap();

    assert!(mesh.node_by_tag(1).is_some());
    assert!(mesh.node_by_tag(8).is_some());
    assert!(mesh.node_by_tag(99).is_none());

    let pos = position(mesh.node_by_tag(2).unwrap());
    assert!((pos[0] - 10.0).abs() < 1e-10);
}

#[test]
fn entity_physical_tags() {
    let mesh = MshMesh::read_from(sample_ascii_msh().as_bytes()).unwrap();

    assert_eq!(mesh.entities.len(), 2);
    assert_eq!(mesh.entities[0].dimension, 3);
    assert_eq!(mesh.entities[0].tag, 1);
    assert_eq!(mesh.entities[0].physical_tags, vec![1]);
    assert_eq!(mesh.entities[1].tag, 2);
    assert_eq!(mesh.entities[1].physical_tags, vec![2]);
}

#[test]
fn element_types_num_nodes() {
    assert_eq!(element_types::num_nodes(element_types::TET4), Some(4));
    assert_eq!(element_types::num_nodes(element_types::TET10), Some(10));
    assert_eq!(element_types::num_nodes(element_types::TRI3), Some(3));
    assert_eq!(element_types::num_nodes(element_types::LINE2), Some(2));
    assert_eq!(element_types::num_nodes(99), None);
}

#[test]
fn mesh_counts_and_triangles() {
    let mesh = MshMesh::read_from(sample_ascii_msh().as_bytes()).unwrap();
    assert_eq!(mesh.num_nodes(), 8);
    assert_eq!(mesh.num_elements(), 2);
    assert_eq!(mesh.triangles().len(), 0);
    assert_eq!(element_types::num_nodes(element_types::HEX8), Some(8));
    assert_eq!(element_types::num_nodes(element_types::QUAD4), Some(4));
    assert_eq!(element_types::num_nodes(element_types::TRI6), Some(6));
}

#[test]
fn mesh_missing_format_is_an_error() {
    assert!(MshMesh::read_from(b"$Nodes\n0 0 0 0\n$EndNodes\n").is_err());
    assert!(MshMesh::read_from(b"").is_err());
}

#[test]
fn mesh_unknown_sections_are_skipped() {
    let data = "$MeshFormat\n4.1 0 8\n$EndMeshFormat\n$Comments\nhello\n$EndComments\n";
    let mesh = MshMesh::read_from(data.as_bytes()).unwrap();
    assert_eq!(mesh.nodes.len(), 0);
    assert_eq!(mesh.version, "4.1");
}

#[test]
fn mesh_binary_nodes() {
    let mut data: Vec<u8> = Vec::new();
    data.extend_from_slice(b"$MeshFormat\n4.1 1 8\n");
    data.extend_from_slice(&1u32.to_le_bytes());
    data.extend_from_slice(b"\n$EndMeshFormat\n$Nodes\n1 1 7 7\n3 1 0 1\n");
    data.extend_from_slice(&7u64.to_le_bytes());
    for c in [1.5f64, 2.5, 3.5] {
        data.extend_from_slice(&c.to_le_bytes());
    }
    data.extend_from_slice(b"\n$EndNodes\n");
    let mesh = MshMesh::read_from(&data).unwrap();
    assert!(mesh.binary);
    assert_eq!(mesh.nodes.len(), 1);
    let p = position(mesh.node_by_tag(7).unwrap());
    assert_eq!(p, [1.5, 2.5, 3.5]);
}

#[test]
fn mesh_binary_wrong_endian_marker() {
    let mut data: Vec<u8> = Vec::new();
    data.extend_from_slice(b"$MeshFormat\n4.1 1 8\n");
    data.extend_from_slice(&2u32.to_le_bytes());
    data.extend_from_slice(b"\n$EndMeshFormat\n");
    assert!(MshMesh::read_from(&data).is_err());
}

#[test]
fn mesh_unsupported_version() {
    assert!(MshMesh::read_from(b"$MeshFormat\n2.2 0 8\n$EndMeshFormat\n").is_err());
}

fn element(tag: u64, element_type: u32, nodes: &[u64]) -> emstudio::msh::MshElement {
    emstudio::msh::MshElement { tag, element_type, entity_dim: 3, entity_tag: 1, node_tags: nodes.to_vec() }
}

#[test]
fn vtk_topology_numbers_points_by_first_use() {
    let elements = vec![
        element(1, element_types::TET4, &[7, 3, 9, 4]),
        element(2, element_types::TRI3, &[1, 2, 5]),
        element(3, element_types::TET4, &[4, 9, 11, 2]),
        element(4, element_types::TET10, &[1, 2, 3, 4, 5, 6, 7, 8, 9, 10]),
    ];
    let topo = VtkTopology::from_elements(&elements);
    assert_eq!(topo.point_tags, vec![7, 3, 9, 4, 11, 2]);
    assert_eq!(topo.cells, vec![[0, 1, 2, 3], [3, 2, 4, 5]]);
}

#[test]
fn vtk_topology_of_the_sample_mesh() {
    let mesh = MshMesh::read_from(sample_ascii_msh().as_bytes()).unwrap();
    let topo = VtkTopology::from_elements(&mesh.elements);
    let tets = mesh.elements.iter().filter(|e| e.element_type == element_types::TET4).count();
    assert_eq!(topo.cells.len(), tets);
    for (cell, tet) in topo.cells.iter().zip(mesh.elements.iter().filter(|e| e.element_type == element_types::TET4)) {
        for j in 0..4 {
            assert_eq!(topo.point_tags[cell[j]], tet.node_tags[j]);
        }
    }
}
