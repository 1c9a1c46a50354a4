use model_viewer::mesh::Mesh;

#[test]
fn vertex_bytes_are_the_words_in_memory() {
    let mesh = Mesh {
        vertices: vec![1.0f32.to_bits(), 0x0102_0304, 0, u32::MAX, 5, 6, 7, 8],
        indices: vec![0, 0, 0],
    };
    let mut expected: Vec<u8> = Vec::new();
    for word in &mesh.vertices {
        expected.extend_from_slice(&word.to_ne_bytes());
    }
    assert_eq!(mesh.vertex_bytes(), &expected[..]);
    assert_eq!(mesh.vertex_bytes().len(), 32);
}

#[test]
fn vertex_bytes_hold_the_floats() {
    let mesh = Mesh { vertices: vec![0.5f32.to_bits(), (-2.0f32).to_bits()], indices: vec![] };
    let bytes = mesh.vertex_bytes();
    assert_eq!(f32::from_ne_bytes([bytes[0], bytes[1], bytes[2], bytes[3]]), 0.5);
    assert_eq!(f32::from_ne_bytes([bytes[4], bytes[5], bytes[6], bytes[7]]), -2.0);
}

#[test]
fn index_bytes_are_either_byte_order() {
    let mesh = Mesh { vertices: vec![0; 16], indices: vec![1, 0x0a0b_0c0d, 0] };
    let bytes = mesh.index_bytes().to_vec();
    let little: Vec<u8> = mesh.indices.iter().flat_map(|i| i.to_le_bytes()).collect();
    let big: Vec<u8> = mesh.indices.iter().flat_map(|i| i.to_be_bytes()).collect();
    assert!(bytes == little || bytes == big);
}

#[test]
fn index_buffer_length_gives_the_triangle_count() {
    let mesh = Mesh { vertices: vec![0; 32], indices: vec![0, 1, 2, 0, 2, 3] };
    assert_eq!(mesh.index_bytes().len(), 24);
    assert_eq!(mesh.index_bytes().len() / 4 / 3, mesh.indices.len() / 3);
    assert_eq!(mesh.index_bytes().len() / 4 / 3, 2);
}

#[test]
fn index_count_of_a_mesh() {
    let mesh = Mesh { vertices: vec![0; 32], indices: vec![0, 1, 2, 0, 2, 3] };
    assert_eq!(mesh.index_count(), Some(6));
    let empty = Mesh { vertices: vec![], indices: vec![] };
    assert_eq!(empty.index_count(), Some(0));
    assert!(empty.index_bytes().is_empty());
    assert!(empty.vertex_bytes().is_empty());
}
