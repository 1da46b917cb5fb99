//! What the one render pipeline of the renderer is made from.
//!
//! The pipeline itself lives on the graphics device. Here is its
//! description: the binding sets it reads, the vertex buffers it is fed
//! from, and its fixed state.

use vstd::prelude::*;
use crate::draft::TextureFormat;
use crate::draft_instance::instance_attributes;
use crate::draft_instance::DraftInstanceRaw;
use crate::draft_instance::RAW_INSTANCE_SIZE;
use crate::draft_model::CAMERA_BIND_GROUP;
use crate::draft_model::INSTANCE_VERTEX_SLOT;
use crate::draft_model::MATERIAL_BIND_GROUP;
use crate::draft_model::MESH_VERTEX_SLOT;
use crate::draft_vertex::bytes_before;
use crate::draft_vertex::model_vertex_attributes;
use crate::draft_vertex::DraftModelVertex;
use crate::draft_vertex::VertexAttribute;
use crate::draft_vertex::VertexBufferLayout;
use crate::draft_vertex::VertexStepMode;
use crate::draft_vertex::MODEL_VERTEX_SIZE;

verus! {

/// The entry point of the vertex stage.
pub const VERTEX_ENTRY_POINT: &'static str = "vs_main";

/// The entry point of the fragment stage.
pub const FRAGMENT_ENTRY_POINT: &'static str = "fs_main";

/// The stage of the pipeline that sees a binding.
#[derive(Clone, Copy, Debug, PartialEq, Eq, Structural)]
pub enum ShaderStage {
    Vertex,
    Fragment,
}

/// What is bound at a binding.
#[derive(Clone, Copy, Debug, PartialEq, Eq, Structural)]
pub enum BindingType {
    /// A two-dimensional texture of filterable numbers, one sample per
    /// texel.
    Texture,
    /// A sampler that filters.
    Sampler,
    /// A uniform buffer, bound whole and at a fixed offset.
    UniformBuffer,
}

/// One binding of a binding set.
#[derive(Clone, Copy, Debug, PartialEq, Eq, Structural)]
pub struct BindGroupLayoutEntry {
    pub binding: u32,
    pub visibility: ShaderStage,
    pub ty: BindingType,
}

/// How vertices are put together to primitives.
#[derive(Clone, Copy, Debug, PartialEq, Eq, Structural)]
pub enum PrimitiveTopology {
    PointList,
    LineList,
    LineStrip,
    TriangleList,
    TriangleStrip,
}

/// The winding of a triangle that faces the viewer.
#[derive(Clone, Copy, Debug, PartialEq, Eq, Structural)]
pub enum FrontFace {
    Ccw,
    Cw,
}

/// A side of a triangle.
#[derive(Clone, Copy, Debug, PartialEq, Eq, Structural)]
pub enum Face {
    Front,
    Back,
}

/// How a triangle is filled.
#[derive(Clone, Copy, Debug, PartialEq, Eq, Structural)]
pub enum PolygonMode {
    Fill,
    Line,
    Point,
}

/// How a new colour meets the one that is there.
#[derive(Clone, Copy, Debug, PartialEq, Eq, Structural)]
pub enum BlendState {
    /// The new colour takes the place of the old.
    Replace,
}

/// Which channels of a colour are written.
#[derive(Clone, Copy, Debug, PartialEq, Eq, Structural)]
pub enum ColorWrites {
    All,
}

/// The fixed state of the pipeline's primitive assembly.
#[derive(Clone, Copy, Debug, PartialEq, Eq, Structural)]
pub struct PrimitiveState {
    pub topology: PrimitiveTopology,
    pub front_face: FrontFace,
    pub cull_mode: Option<Face>,
    pub polygon_mode: PolygonMode,
    pub unclipped_depth: bool,
    pub conservative: bool,
}

/// The fixed state of the pipeline's sampling.
#[derive(Clone, Copy, Debug, PartialEq, Eq, Structural)]
pub struct MultisampleState {
    pub count: u32,
    pub mask: u64,
    pub alpha_to_coverage_enabled: bool,
}

/// The one colour target of the pipeline.
#[derive(Clone, Copy, Debug, PartialEq, Eq, Structural)]
pub struct ColorTargetState {
    pub format: TextureFormat,
    pub blend: BlendState,
    pub write_mask: ColorWrites,
}

/// The description of a render pipeline. It has no depth test.
#[derive(Debug)]
pub struct RenderPipelineDescription {
    /// The binding sets, each at its index.
    pub bind_group_layouts: Vec<Vec<BindGroupLayoutEntry>>,
    /// The vertex buffers, each at its slot.
    pub buffers: Vec<VertexBufferLayout>,
    pub primitive: PrimitiveState,
    pub multisample: MultisampleState,
    pub target: ColorTargetState,
}

/// The binding set of a material: its texture, then its sampler, both for
/// the fragment stage.
pub open spec fn texture_bindings() -> Seq<BindGroupLayoutEntry> {
    seq![
        BindGroupLayoutEntry {
            binding: 0,
            visibility: ShaderStage::Fragment,
            ty: BindingType::Texture,
        },
        BindGroupLayoutEntry {
            binding: 1,
            visibility: ShaderStage::Fragment,
            ty: BindingType::Sampler,
        },
    ]
}

/// The binding set of the camera: its uniform, for the vertex stage.
pub open spec fn camera_bindings() -> Seq<BindGroupLayoutEntry> {
    seq![
        BindGroupLayoutEntry {
            binding: 0,
            visibility: ShaderStage::Vertex,
            ty: BindingType::UniformBuffer,
        },
    ]
}

/// The fixed state for a topology: counter-clockwise triangles face the
/// viewer, their backs are not drawn, and they are filled.
pub open spec fn primitive_state(topology: PrimitiveTopology) -> PrimitiveState {
    PrimitiveState {
        topology,
        front_face: FrontFace::Ccw,
        cull_mode: Some(Face::Back),
        polygon_mode: PolygonMode::Fill,
        unclipped_depth: false,
        conservative: false,
    }
}

/// One sample per pixel, all of them written.
pub open spec fn multisample_state() -> MultisampleState {
    MultisampleState { count: 1, mask: 0xFFFF_FFFF_FFFF_FFFF, alpha_to_coverage_enabled: false }
}

/// No shader input is read by two attributes, in one buffer or in two.
pub open spec fn locations_distinct(buffers: Seq<Seq<VertexAttribute>>) -> bool {
    forall|a: int, i: int, b: int, j: int|
        #![trigger buffers[a][i], buffers[b][j]]
        0 <= a < buffers.len() && 0 <= i < buffers[a].len() && 0 <= b < buffers.len() && 0 <= j
            < buffers[b].len() && (a != b || i != j) ==> buffers[a][i].shader_location
            != buffers[b][j].shader_location
}

/// The binding set of a material.
pub fn texture_bind_group_layout() -> (entries: Vec<BindGroupLayoutEntry>)
    ensures
        entries@ == texture_bindings(),
{
    let entries = vec![
        BindGroupLayoutEntry {
            binding: 0,
            visibility: ShaderStage::Fragment,
            ty: BindingType::Texture,
        },
        BindGroupLayoutEntry {
            binding: 1,
            visibility: ShaderStage::Fragment,
            ty: BindingType::Sampler,
        },
    ];
    assert(entries@ =~= texture_bindings());
    entries
}

/// The binding set of the camera.
pub fn camera_bind_group_layout() -> (entries: Vec<BindGroupLayoutEntry>)
    ensures
        entries@ == camera_bindings(),
{
    let entries = vec![
        BindGroupLayoutEntry {
            binding: 0,
            visibility: ShaderStage::Vertex,
            ty: BindingType::UniformBuffer,
        },
    ];
    assert(entries@ =~= camera_bindings());
    entries
}

impl RenderPipelineDescription {
    /// Whether this is the pipeline that draws models in `primitive`s onto a
    /// surface of `format`.
    ///
    /// Its binding sets are that of a material and that of the camera, at
    /// the indices at which draws bind them. Its vertex buffers are a model's
    /// vertices and the instances, at the slots at which draws bind them,
    /// and no two of their attributes read the same shader input.
    pub open spec fn draws(&self, primitive: PrimitiveTopology, format: TextureFormat) -> bool {
        &&& self.bind_group_layouts@.len() == 2
        &&& self.bind_group_layouts@[MATERIAL_BIND_GROUP as int]@ == texture_bindings()
        &&& self.bind_group_layouts@[CAMERA_BIND_GROUP as int]@ == camera_bindings()
        &&& self.buffers@.len() == 2
        &&& self.buffers@[MESH_VERTEX_SLOT as int].array_stride == MODEL_VERTEX_SIZE
        &&& self.buffers@[MESH_VERTEX_SLOT as int].step_mode == VertexStepMode::Vertex
        &&& self.buffers@[MESH_VERTEX_SLOT as int].attributes@ == model_vertex_attributes()
        &&& self.buffers@[INSTANCE_VERTEX_SLOT as int].array_stride == RAW_INSTANCE_SIZE
        &&& self.buffers@[INSTANCE_VERTEX_SLOT as int].step_mode == VertexStepMode::Instance
        &&& self.buffers@[INSTANCE_VERTEX_SLOT as int].attributes@ == instance_attributes()
        &&& self.primitive == primitive_state(primitive)
        &&& self.multisample == multisample_state()
        &&& self.target == (ColorTargetState {
            format,
            blend: BlendState::Replace,
            write_mask: ColorWrites::All,
        })
    }
}

/// In the pipeline's two vertex buffers every attribute follows the one
/// before without a gap, and no shader input is read twice.
pub proof fn lemma_pipeline_buffers_fit(
    pipeline: &RenderPipelineDescription,
    primitive: PrimitiveTopology,
    format: TextureFormat,
)
    requires
        pipeline.draws(primitive, format),
    ensures
        pipeline.buffers@[MESH_VERTEX_SLOT as int].is_packed(0),
        pipeline.buffers@[INSTANCE_VERTEX_SLOT as int].is_packed(5),
        locations_distinct(
            seq![
                pipeline.buffers@[MESH_VERTEX_SLOT as int].attributes@,
                pipeline.buffers@[INSTANCE_VERTEX_SLOT as int].attributes@,
            ],
        ),
{
    reveal_with_fuel(bytes_before, 5);
    let both = seq![model_vertex_attributes(), instance_attributes()];
    assert forall|a: int, i: int, b: int, j: int|
        #![trigger both[a][i], both[b][j]]
        0 <= a < both.len() && 0 <= i < both[a].len() && 0 <= b < both.len() && 0 <= j
            < both[b].len() && (a != b || i != j) implies both[a][i].shader_location
            != both[b][j].shader_location by {
        assert(both[0] == model_vertex_attributes());
        assert(both[1] == instance_attributes());
    }
}

/// The pipeline that draws models in `primitive`s onto a surface of
/// `format`; see [`RenderPipelineDescription::draws`].
pub fn create_render_pipeline(primitive: PrimitiveTopology, format: TextureFormat) -> (pipeline:
    RenderPipelineDescription)
    ensures
        pipeline.draws(primitive, format),
{
    let mut bind_group_layouts: Vec<Vec<BindGroupLayoutEntry>> = Vec::new();
    bind_group_layouts.push(texture_bind_group_layout());
    bind_group_layouts.push(camera_bind_group_layout());
    let mut buffers: Vec<VertexBufferLayout> = Vec::new();
    buffers.push(DraftModelVertex::desc());
    buffers.push(DraftInstanceRaw::desc());
    RenderPipelineDescription {
        bind_group_layouts,
        buffers,
        primitive: PrimitiveState {
            topology: primitive,
            front_face: FrontFace::Ccw,
            cull_mode: Some(Face::Back),
            polygon_mode: PolygonMode::Fill,
            unclipped_depth: false,
            conservative: false,
        },
        multisample: MultisampleState {
            count: 1,
            mask: 0xFFFF_FFFF_FFFF_FFFF,
            alpha_to_coverage_enabled: false,
        },
        target: ColorTargetState { format, blend: BlendState::Replace, write_mask: ColorWrites::All },
    }
}

} // verus!
