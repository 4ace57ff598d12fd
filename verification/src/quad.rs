//! The quad that covers the clip space, for the passes that filter a texture.

use vstd::prelude::*;
use crate::context::{BufferInfo, BufferType, Mesh, VertexAttribute};
use crate::formats::VertexFormat;
use crate::shader::Attribute;

verus! {

/// The vertices of the quad: per vertex a position `(x, y)` and a texture
/// coordinate `(u, v)`, each component in halves (`2` stands for `1.0`).
pub open spec fn quad_vertices() -> Seq<i8> {
    seq![
        -2i8, -2i8, 0, 0,
        2, -2i8, 2, 0,
        2, 2, 2, 2,
        -2i8, 2, 0, 2,
    ]
}

/// The indices of the two triangles of the quad.
pub open spec fn quad_indices() -> Seq<u16> {
    seq![0u16, 1, 2, 0, 2, 3]
}

/// The vertices and indices of the quad. Every index names one of the four
/// vertices, and the texture coordinate of a vertex is its position mapped
/// from `[-1, 1]` to `[0, 1]`.
pub fn quad_verts() -> (quad: (Vec<i8>, Vec<u16>))
    ensures
        quad.0@ == quad_vertices(),
        quad.1@ == quad_indices(),
        quad.0@.len() == 16,
        quad.1@.len() == 6,
        forall|i: int| 0 <= i < 6 ==> (#[trigger] quad.1@[i]) < 4,
        forall|v: int|
            0 <= v < 4 ==> {
                &&& 2 * (#[trigger] quad.0@[4 * v + 2]) == quad.0@[4 * v] + 2
                &&& 2 * quad.0@[4 * v + 3] == quad.0@[4 * v + 1] + 2
            },
{
    let vertices: Vec<i8> = vec![
        -2i8, -2i8, 0, 0,
        2, -2i8, 2, 0,
        2, 2, 2, 2,
        -2i8, 2, 0, 2,
    ];
    let indices: Vec<u16> = vec![0u16, 1, 2, 0, 2, 3];
    (vertices, indices)
}

/// The attributes of a vertex of the quad: position, then texture coordinate.
pub open spec fn quad_attributes() -> Seq<VertexAttribute> {
    seq![
        VertexAttribute { name: Attribute::Pos, format: VertexFormat::Float2, buffer_index: 0 },
        VertexAttribute { name: Attribute::Uv, format: VertexFormat::Float2, buffer_index: 0 },
    ]
}

/// The two buffers of the quad: its vertices, then its indices.
pub open spec fn quad_buffers() -> Seq<BufferInfo> {
    seq![
        BufferInfo { kind: BufferType::VertexBuffer, mesh: Mesh::Quad, len: 16 },
        BufferInfo { kind: BufferType::IndexBuffer, mesh: Mesh::Quad, len: 6 },
    ]
}

} // verus!
