use model_viewer::layout::{
    vertex_attributes, VertexAttribute, COMPONENT_SIZE, NORMAL_LOCATION, POSITION_LOCATION,
    TEXCOORD_LOCATION, VERTEX_STRIDE,
};
use model_viewer::mesh::WORDS_PER_VERTEX;

#[test]
fn attributes_of_a_record() {
    assert_eq!(
        vertex_attributes(),
        [
            VertexAttribute { location: 0, components: 3, offset: 0 },
            VertexAttribute { location: 1, components: 3, offset: 12 },
            VertexAttribute { location: 2, components: 2, offset: 24 },
        ]
    );
}

#[test]
fn stride_is_eight_floats() {
    assert_eq!(VERTEX_STRIDE, 32);
    assert_eq!(COMPONENT_SIZE as usize, std::mem::size_of::<f32>());
    assert_eq!(VERTEX_STRIDE as usize, WORDS_PER_VERTEX * std::mem::size_of::<f32>());
    assert_eq!((POSITION_LOCATION, NORMAL_LOCATION, TEXCOORD_LOCATION), (0, 1, 2));
}

#[test]
fn attributes_tile_the_record() {
    let attributes = vertex_attributes();
    let mut end = 0;
    for attribute in attributes {
        assert_eq!(attribute.offset, end);
        end = attribute.offset + attribute.components * COMPONENT_SIZE;
    }
    assert_eq!(end, VERTEX_STRIDE);
}
