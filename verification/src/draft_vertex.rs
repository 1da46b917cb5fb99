//! How vertex data lies in a buffer: the layout that the pipeline is told.

use vstd::prelude::*;

verus! {

/// Whether a buffer advances once per vertex or once per instance.
#[derive(Clone, Copy, Debug, PartialEq, Eq, Structural)]
pub enum VertexStepMode {
    Vertex,
    Instance,
}

/// The shape of one attribute: two, three or four 32-bit numbers.
#[derive(Clone, Copy, Debug, PartialEq, Eq, Structural)]
pub enum VertexFormat {
    Float32x2,
    Float32x3,
    Float32x4,
}

/// One attribute of a vertex: where it starts and which shader input reads it.
#[derive(Clone, Copy, Debug, PartialEq, Eq, Structural)]
pub struct VertexAttribute {
    pub format: VertexFormat,
    pub offset: u64,
    pub shader_location: u32,
}

/// The layout of one vertex buffer.
#[derive(Clone, Debug)]
pub struct VertexBufferLayout {
    pub array_stride: u64,
    pub step_mode: VertexStepMode,
    pub attributes: Vec<VertexAttribute>,
}

impl VertexFormat {
    /// The bytes that one attribute of this format takes.
    pub open spec fn byte_size(self) -> nat {
        match self {
            VertexFormat::Float32x2 => 8,
            VertexFormat::Float32x3 => 12,
            VertexFormat::Float32x4 => 16,
        }
    }

    pub fn size(self) -> (r: u64)
        ensures
            r == self.byte_size(),
    {
        match self {
            VertexFormat::Float32x2 => 8,
            VertexFormat::Float32x3 => 12,
            VertexFormat::Float32x4 => 16,
        }
    }
}

/// The bytes that the first `n` attributes take together.
pub open spec fn bytes_before(attributes: Seq<VertexAttribute>, n: int) -> nat
    decreases n,
{
    if n <= 0 {
        0
    } else {
        bytes_before(attributes, n - 1) + attributes[n - 1].format.byte_size()
    }
}

/// Attributes lie back to back from offset zero and fill the stride exactly,
/// and they read consecutive shader inputs starting at `first_location`.
pub open spec fn packed(
    array_stride: u64,
    attributes: Seq<VertexAttribute>,
    first_location: u32,
) -> bool {
    &&& forall|i: int|
        0 <= i < attributes.len() ==> {
            &&& (#[trigger] attributes[i]).offset == bytes_before(attributes, i)
            &&& attributes[i].shader_location == first_location + i
        }
    &&& array_stride == bytes_before(attributes, attributes.len() as int)
}

impl VertexBufferLayout {
    /// Whether the layout is gap-free; see [`packed`].
    pub open spec fn is_packed(self, first_location: u32) -> bool {
        packed(self.array_stride, self.attributes@, first_location)
    }
}

/// The bytes of one vertex of a model.
pub const MODEL_VERTEX_SIZE: u64 = 32u64;

/// The layout of a model's vertex buffer: position, texture coordinates,
/// normal.
pub open spec fn model_vertex_attributes() -> Seq<VertexAttribute> {
    seq![
        VertexAttribute { format: VertexFormat::Float32x3, offset: 0, shader_location: 0 },
        VertexAttribute { format: VertexFormat::Float32x2, offset: 12, shader_location: 1 },
        VertexAttribute { format: VertexFormat::Float32x3, offset: 20, shader_location: 2 },
    ]
}

/// A vertex of a model, as the vertex stage reads it.
pub struct DraftModelVertex {
    pub position: [u32; 3],
    pub tex_coords: [u32; 2],
    pub normal: [u32; 3],
}

impl DraftModelVertex {
    /// The layout of a buffer of model vertices.
    pub fn desc() -> (layout: VertexBufferLayout)
        ensures
            layout.array_stride == MODEL_VERTEX_SIZE,
            layout.step_mode == VertexStepMode::Vertex,
            layout.attributes@ == model_vertex_attributes(),
            layout.is_packed(0),
    {
        let attributes = vec![
            VertexAttribute { format: VertexFormat::Float32x3, offset: 0, shader_location: 0 },
            VertexAttribute { format: VertexFormat::Float32x2, offset: 12, shader_location: 1 },
            VertexAttribute { format: VertexFormat::Float32x3, offset: 20, shader_location: 2 },
        ];
        proof {
            assert(attributes@ =~= model_vertex_attributes());
            reveal_with_fuel(bytes_before, 4);
        }
        VertexBufferLayout {
            array_stride: MODEL_VERTEX_SIZE,
            step_mode: VertexStepMode::Vertex,
            attributes,
        }
    }
}

} // verus!
