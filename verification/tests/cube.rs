use pony_renderer::cube::{create_vertices, BlockFaces, BlockVertex, BACK, BOTTOM, FRONT, LEFT, RIGHT, TOP};

#[test]
fn a_full_block_has_six_quads() {
    let bundle = create_vertices(BlockFaces::all());
    assert_eq!(bundle.vertex_data.len(), 24);
    assert_eq!(bundle.index_data.len(), 36);
    assert_eq!(&bundle.index_data[..6], &[0, 1, 2, 2, 3, 0]);
    assert_eq!(&bundle.index_data[30..], &[20, 21, 22, 22, 23, 20]);
    assert!(bundle.index_data.iter().all(|&i| (i as usize) < bundle.vertex_data.len()));
    assert_eq!(bundle.vertex_data[0], BlockVertex { pos: [-1, -1, 1], normal: [0, 0, 1], tex_coord: [0, 0] });
    assert_eq!(bundle.vertex_data[23], BlockVertex { pos: [1, -1, -1], normal: [0, -1, 0], tex_coord: [0, 1] });
}

#[test]
fn faces_come_in_mesh_order() {
    let faces = BlockFaces::from_bits_retain(TOP).union(BlockFaces::from_bits_retain(LEFT));
    let bundle = create_vertices(faces);
    assert_eq!(bundle.vertex_data.len(), 8);
    // The left face comes before the top face.
    assert_eq!(bundle.vertex_data[0].normal, [0, 0, -1]);
    assert_eq!(bundle.vertex_data[4].normal, [0, 1, 0]);
    assert_eq!(bundle.index_data, vec![0, 1, 2, 2, 3, 0, 4, 5, 6, 6, 7, 4]);
}

#[test]
fn no_faces_no_mesh() {
    let bundle = create_vertices(BlockFaces::empty());
    assert!(bundle.vertex_data.is_empty());
    assert!(bundle.index_data.is_empty());
    let other_bits = create_vertices(BlockFaces::from_bits_retain(1 << 9));
    assert!(other_bits.vertex_data.is_empty());
}

#[test]
fn face_bits_and_containment() {
    assert_eq!(BlockFaces::all().bits(), 0b111111);
    assert_eq!(TOP | BOTTOM | LEFT | RIGHT | FRONT | BACK, 63);
    let faces = BlockFaces::from_bits_retain(FRONT | BACK);
    assert!(faces.contains(BlockFaces::from_bits_retain(BACK)));
    assert!(!faces.contains(BlockFaces::from_bits_retain(BACK | TOP)));
    assert!(faces.contains(BlockFaces::empty()));
}
