//! One placed occurrence of a model, and the form in which the graphics
//! device reads it.

use vstd::prelude::*;
use crate::bytes::in_memory;
use crate::bytes::words_to_bytes;
use crate::draft_model::model_commands;
use crate::draft_model::DraftModel;
use crate::draft_model::ModelView;
use crate::draft_model::DraftRenderPass;
use crate::draft_model::DrawCommand;
use crate::draft_model::DrawModel;
use crate::draft_model::GpuHandle;
use crate::draft_model::VertexSource;
use crate::draft_model::INSTANCE_VERTEX_SLOT;
use crate::draft_vertex::bytes_before;
use crate::draft_vertex::VertexAttribute;
use crate::draft_vertex::VertexBufferLayout;
use crate::draft_vertex::VertexFormat;
use crate::draft_vertex::VertexStepMode;
use crate::linear::push_matrix_words;
use crate::linear::Mat4;
use crate::linear::Quat;
use crate::linear::Vec3;

verus! {

/// The bytes that one instance takes in an instance buffer: sixteen numbers.
pub const RAW_INSTANCE_SIZE: u64 = 64u64;

/// One placed occurrence of a model.
#[derive(Clone, Copy, Debug, PartialEq, Eq, Structural)]
pub struct DraftInstance {
    pub position: Vec3,
    pub rotation: Quat,
}

/// An instance as the vertex stage reads it: its model matrix.
#[derive(Clone, Copy, Debug, PartialEq, Eq, Structural)]
pub struct DraftInstanceRaw {
    pub model: Mat4,
}

/// The four rows of a model matrix, read at shader inputs 5 to 8.
pub open spec fn instance_attributes() -> Seq<VertexAttribute> {
    seq![
        VertexAttribute { format: VertexFormat::Float32x4, offset: 0, shader_location: 5 },
        VertexAttribute { format: VertexFormat::Float32x4, offset: 16, shader_location: 6 },
        VertexAttribute { format: VertexFormat::Float32x4, offset: 32, shader_location: 7 },
        VertexAttribute { format: VertexFormat::Float32x4, offset: 48, shader_location: 8 },
    ]
}

/// The words of all matrices in `raws`, one matrix after the other.
pub open spec fn raw_words(raws: Seq<DraftInstanceRaw>) -> Seq<u32>
    decreases raws.len(),
{
    if raws.len() == 0 {
        Seq::empty()
    } else {
        raw_words(raws.drop_last()) + raws.last().model.words()
    }
}

/// Sixteen words for each matrix.
pub proof fn lemma_raw_words_len(raws: Seq<DraftInstanceRaw>)
    ensures
        raw_words(raws).len() == 16 * raws.len(),
    decreases raws.len(),
{
    if raws.len() > 0 {
        lemma_raw_words_len(raws.drop_last());
    }
}

impl DraftInstance {
    /// An instance at `position`, or at the origin where none is given, that
    /// is not rotated.
    pub open spec fn placed(position: Option<Vec3>) -> DraftInstance {
        DraftInstance {
            position: match position {
                Some(p) => p,
                None => Vec3::origin(),
            },
            rotation: Quat::identity(),
        }
    }

    pub fn new(position: Vec3, rotation: Quat) -> (r: DraftInstance)
        ensures
            r == (DraftInstance { position, rotation }),
    {
        DraftInstance { position, rotation }
    }

    /// See [`DraftInstance::placed`].
    pub fn place(position: Option<Vec3>) -> (r: DraftInstance)
        ensures
            r == DraftInstance::placed(position),
    {
        DraftInstance {
            position: match position {
                Some(p) => p,
                None => Vec3::zero(),
            },
            rotation: Quat::no_rotation(),
        }
    }
}

impl DraftInstanceRaw {
    pub fn new(model: Mat4) -> (r: DraftInstanceRaw)
        ensures
            r.model == model,
    {
        DraftInstanceRaw { model }
    }

    /// The layout of an instance buffer.
    pub fn desc() -> (layout: VertexBufferLayout)
        ensures
            layout.array_stride == RAW_INSTANCE_SIZE,
            layout.step_mode == VertexStepMode::Instance,
            layout.attributes@ == instance_attributes(),
            layout.is_packed(5),
    {
        let attributes = vec![
            VertexAttribute { format: VertexFormat::Float32x4, offset: 0, shader_location: 5 },
            VertexAttribute { format: VertexFormat::Float32x4, offset: 16, shader_location: 6 },
            VertexAttribute { format: VertexFormat::Float32x4, offset: 32, shader_location: 7 },
            VertexAttribute { format: VertexFormat::Float32x4, offset: 48, shader_location: 8 },
        ];
        proof {
            assert(attributes@ =~= instance_attributes());
            reveal_with_fuel(bytes_before, 5);
        }
        VertexBufferLayout {
            array_stride: RAW_INSTANCE_SIZE,
            step_mode: VertexStepMode::Instance,
            attributes,
        }
    }

    /// The contents of an instance buffer that holds `raws` in order.
    pub fn pack(raws: &Vec<DraftInstanceRaw>) -> (bytes: Vec<u8>)
        ensures
            in_memory(raw_words(raws@), bytes@),
            bytes@.len() == RAW_INSTANCE_SIZE * raws@.len(),
    {
        let mut words: Vec<u32> = Vec::new();
        let mut i: usize = 0;
        while i < raws.len()
            invariant
                i <= raws.len(),
                words@ == raw_words(raws@.take(i as int)),
            decreases raws.len() - i,
        {
            push_matrix_words(&mut words, raws[i].model);
            proof {
                assert(raws@.take(i + 1).drop_last() =~= raws@.take(i as int));
            }
            i += 1;
        }
        proof {
            assert(raws@.take(i as int) =~= raws@);
            lemma_raw_words_len(raws@);
        }
        words_to_bytes(&words)
    }
}

/// The commands that draw `model` once with the instance buffer of the
/// model at `place`: the buffer is bound, then each mesh is drawn.
pub open spec fn instance_commands(
    place: usize,
    model: ModelView,
    camera_bind_group: GpuHandle,
) -> Seq<DrawCommand> {
    seq![
        DrawCommand::SetVertexBuffer {
            slot: INSTANCE_VERTEX_SLOT,
            source: VertexSource::Instances(place),
        },
    ] + model_commands(model, model.meshes.len() as int, 1, camera_bind_group)
}

/// Drawing single instances into a render pass.
pub trait DrawInstance {
    /// The commands that the pass holds.
    spec fn commands(&self) -> Seq<DrawCommand>;

    /// Draws `model` once, placed by the first instance in the instance
    /// buffer of the model at `place`.
    fn draw_instance(&mut self, place: usize, model: &DraftModel, camera_bind_group: GpuHandle)
        requires
            model@.well_formed(),
        ensures
            final(self).commands() == old(self).commands() + instance_commands(
                place,
                model@,
                camera_bind_group,
            ),
    ;
}

impl DrawInstance for DraftRenderPass {
    open spec fn commands(&self) -> Seq<DrawCommand> {
        self@
    }

    fn draw_instance(&mut self, place: usize, model: &DraftModel, camera_bind_group: GpuHandle) {
        self.set_vertex_buffer(INSTANCE_VERTEX_SLOT, VertexSource::Instances(place));
        self.draw_model(model, camera_bind_group);
        assert(self@ =~= old(self)@ + instance_commands(place, model@, camera_bind_group));
    }
}

} // verus!
