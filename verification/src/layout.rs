//! The layout of one interleaved vertex record, as the vertex shader's
//! attribute locations expect it.

use crate::mesh::ObjModel;
use vstd::prelude::*;

verus! {

/// Bytes per coordinate: one single-precision float.
pub const COMPONENT_SIZE: i32 = 4;

/// Bytes from one vertex record to the next.
pub const VERTEX_STRIDE: i32 = 32;

/// Attribute location of the position.
pub const POSITION_LOCATION: u32 = 0;

/// Attribute location of the normal.
pub const NORMAL_LOCATION: u32 = 1;

/// Attribute location of the texture coordinate.
pub const TEXCOORD_LOCATION: u32 = 2;

/// One vertex attribute: where the shader finds it and where it lies in a record.
#[derive(Clone, Copy, Debug, PartialEq, Eq, Structural)]
pub struct VertexAttribute {
    /// Attribute location in the shader.
    pub location: u32,
    /// Number of float components.
    pub components: i32,
    /// Number of bytes from the start of the record to the attribute.
    pub offset: i32,
}

impl VertexAttribute {
    /// Number of bytes from the start of the record to the end of the attribute.
    pub open spec fn end(&self) -> int {
        self.offset + 4 * self.components
    }
}

/// The three attributes of a record: position, normal, texture coordinate.
pub open spec fn record_layout() -> Seq<VertexAttribute> {
    seq![
        VertexAttribute { location: 0, components: 3, offset: 0 },
        VertexAttribute { location: 1, components: 3, offset: 12 },
        VertexAttribute { location: 2, components: 2, offset: 24 },
    ]
}

/// The attributes of a vertex record, in the order of their locations.
pub fn vertex_attributes() -> (attributes: [VertexAttribute; 3])
    ensures
        attributes@ == record_layout(),
{
    let attributes = [
        VertexAttribute { location: POSITION_LOCATION, components: 3, offset: 0 },
        VertexAttribute { location: NORMAL_LOCATION, components: 3, offset: 3 * COMPONENT_SIZE },
        VertexAttribute { location: TEXCOORD_LOCATION, components: 2, offset: 6 * COMPONENT_SIZE },
    ];
    assert(attributes@ =~= record_layout());
    attributes
}

/// The attributes tile the record: each sits at the location of its place in
/// the layout, the first starts the record, each next one starts where the
/// one before it ends, and the last ends with the record, whose stride is
/// that of eight floats.
pub proof fn lemma_layout_tiles_record()
    ensures
        record_layout().len() == 3,
        forall|a: int| 0 <= a < 3 ==> (#[trigger] record_layout()[a]).location == a,
        record_layout()[0].offset == 0,
        forall|a: int| 0 <= a < 2 ==> (#[trigger] record_layout()[a]).end() == record_layout()[a + 1].offset,
        record_layout()[2].end() == VERTEX_STRIDE,
        VERTEX_STRIDE == COMPONENT_SIZE * crate::mesh::WORDS_PER_VERTEX,
{
}

/// The word of a record at which component `c` of an attribute lies.
pub open spec fn component_slot(attribute: VertexAttribute, c: int) -> int {
    attribute.offset / 4 + c
}

/// The layout agrees with the records that the mesh assembly writes: in the
/// record of vertex `v`, the first attribute holds the model's position, the
/// second its normal and the third its texture coordinate, wherever the model
/// has them.
pub proof fn lemma_layout_matches_records(model: ObjModel, v: int, c: int)
    requires
        0 <= c < 3,
    ensures
        model.record_word(v, component_slot(record_layout()[0], c)) == model.positions@[3 * v + c],
        model.normals@.len() != 0 ==> model.record_word(v, component_slot(record_layout()[1], c))
            == model.normals@[3 * v + c],
        c < 2 && model.texcoords@.len() != 0 ==> model.record_word(
            v,
            component_slot(record_layout()[2], c),
        ) == model.texcoords@[2 * v + c],
{
}

} // verus!
