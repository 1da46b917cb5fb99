//! Models, and the commands that draw them.
//!
//! A model's geometry and textures live on the graphics device. Here a model
//! is the list of its meshes and materials, each naming its device resources
//! by handle, and drawing is recording: a render pass collects the commands
//! that the device is to run, in order.

use vstd::prelude::*;
use crate::draft_instance::DraftInstance;

verus! {

/// The slot at which a mesh's own vertices are bound.
pub const MESH_VERTEX_SLOT: u32 = 0u32;

/// The slot at which the instance buffer is bound.
pub const INSTANCE_VERTEX_SLOT: u32 = 1u32;

/// The binding set of a material: its texture and sampler.
pub const MATERIAL_BIND_GROUP: u32 = 0u32;

/// The binding set of the camera uniform, shared by all draws.
pub const CAMERA_BIND_GROUP: u32 = 1u32;

/// The most instances that one draw can cover: the device counts them in 32
/// bits.
pub const MAX_INSTANCES: usize = 0xFFFF_FFFFusize;

/// Names a resource that lives on the graphics device.
#[derive(Clone, Copy, Debug, PartialEq, Eq, Structural)]
pub struct GpuHandle {
    pub id: u64,
}

/// One mesh of a model.
#[derive(Clone, Copy, Debug, PartialEq, Eq, Structural)]
pub struct DraftMesh {
    pub vertex_buffer: GpuHandle,
    pub index_buffer: GpuHandle,
    /// How many indices the index buffer holds.
    pub num_elements: u32,
    /// Which of the model's materials the mesh is drawn with.
    pub material: usize,
}

/// One material of a model.
#[derive(Clone, Copy, Debug, PartialEq, Eq, Structural)]
pub struct DraftMaterial {
    pub diffuse_texture: GpuHandle,
    pub bind_group: GpuHandle,
}

/// Geometry and materials under one name. It does not change once loaded.
#[derive(Clone, Debug)]
pub struct DraftModel {
    pub meshes: Vec<DraftMesh>,
    pub materials: Vec<DraftMaterial>,
}

/// What a model is, as plain sequences.
pub struct ModelView {
    pub meshes: Seq<DraftMesh>,
    pub materials: Seq<DraftMaterial>,
}

impl ModelView {
    /// Every mesh names a material that the model has.
    pub open spec fn well_formed(self) -> bool {
        forall|i: int|
            0 <= i < self.meshes.len() ==> (#[trigger] self.meshes[i]).material
                < self.materials.len()
    }
}

impl View for DraftModel {
    type V = ModelView;

    open spec fn view(&self) -> ModelView {
        ModelView { meshes: self.meshes@, materials: self.materials@ }
    }
}

impl DraftModel {
    pub fn new(meshes: Vec<DraftMesh>, materials: Vec<DraftMaterial>) -> (r: DraftModel)
        ensures
            r@ == (ModelView { meshes: meshes@, materials: materials@ }),
    {
        DraftModel { meshes, materials }
    }

    /// Whether every mesh names a material that the model has.
    pub fn is_well_formed(&self) -> (r: bool)
        ensures
            r == self@.well_formed(),
    {
        let mut i: usize = 0;
        while i < self.meshes.len()
            invariant
                i <= self.meshes.len(),
                forall|j: int|
                    0 <= j < i ==> (#[trigger] self.meshes@[j]).material < self.materials@.len(),
            decreases self.meshes.len() - i,
        {
            if self.meshes[i].material >= self.materials.len() {
                assert(!(self@.meshes[i as int].material < self@.materials.len()));
                return false;
            }
            i += 1;
        }
        true
    }
}

/// The width of the indices in an index buffer.
#[derive(Clone, Copy, Debug, PartialEq, Eq, Structural)]
pub enum IndexFormat {
    Uint16,
    Uint32,
}

/// Which vertex buffer a command binds.
#[derive(Clone, Copy, Debug, PartialEq, Eq, Structural)]
pub enum VertexSource {
    /// A buffer that was made when a model was loaded.
    Resource(GpuHandle),
    /// The instance buffer of the model at this place in the store.
    Instances(usize),
}

/// One command of a render pass.
#[derive(Clone, Copy, Debug, PartialEq, Eq, Structural)]
pub enum DrawCommand {
    SetPipeline { pipeline: GpuHandle },
    SetVertexBuffer { slot: u32, source: VertexSource },
    SetIndexBuffer { buffer: GpuHandle, format: IndexFormat },
    SetBindGroup { index: u32, bind_group: GpuHandle },
    /// Draws indices `0..index_count` with base vertex zero, once for each of
    /// the instances `0..instance_count`.
    DrawIndexed { index_count: u32, instance_count: u32 },
}

/// The commands that draw `mesh` with `material`, `instance_count` times.
pub open spec fn mesh_commands(
    mesh: DraftMesh,
    material: DraftMaterial,
    instance_count: u32,
    camera_bind_group: GpuHandle,
) -> Seq<DrawCommand> {
    seq![
        DrawCommand::SetVertexBuffer {
            slot: MESH_VERTEX_SLOT,
            source: VertexSource::Resource(mesh.vertex_buffer),
        },
        DrawCommand::SetIndexBuffer { buffer: mesh.index_buffer, format: IndexFormat::Uint32 },
        DrawCommand::SetBindGroup { index: MATERIAL_BIND_GROUP, bind_group: material.bind_group },
        DrawCommand::SetBindGroup { index: CAMERA_BIND_GROUP, bind_group: camera_bind_group },
        DrawCommand::DrawIndexed { index_count: mesh.num_elements, instance_count },
    ]
}

/// The commands that draw the first `n` meshes of `model` in order, each with
/// its own material.
pub open spec fn model_commands(
    model: ModelView,
    n: int,
    instance_count: u32,
    camera_bind_group: GpuHandle,
) -> Seq<DrawCommand>
    decreases n,
{
    if n <= 0 {
        Seq::empty()
    } else {
        model_commands(model, n - 1, instance_count, camera_bind_group) + mesh_commands(
            model.meshes[n - 1],
            model.materials[model.meshes[n - 1].material as int],
            instance_count,
            camera_bind_group,
        )
    }
}

/// A render pass that is being recorded.
pub struct DraftRenderPass {
    pub commands: Vec<DrawCommand>,
}

impl View for DraftRenderPass {
    type V = Seq<DrawCommand>;

    open spec fn view(&self) -> Seq<DrawCommand> {
        self.commands@
    }
}

impl DraftRenderPass {
    /// A pass with nothing recorded yet.
    pub fn new() -> (r: DraftRenderPass)
        ensures
            r@ == Seq::<DrawCommand>::empty(),
    {
        DraftRenderPass { commands: Vec::new() }
    }

    pub fn set_pipeline(&mut self, pipeline: GpuHandle)
        ensures
            final(self)@ == old(self)@.push(DrawCommand::SetPipeline { pipeline }),
    {
        self.commands.push(DrawCommand::SetPipeline { pipeline });
    }

    pub fn set_vertex_buffer(&mut self, slot: u32, source: VertexSource)
        ensures
            final(self)@ == old(self)@.push(DrawCommand::SetVertexBuffer { slot, source }),
    {
        self.commands.push(DrawCommand::SetVertexBuffer { slot, source });
    }

    pub fn set_index_buffer(&mut self, buffer: GpuHandle, format: IndexFormat)
        ensures
            final(self)@ == old(self)@.push(DrawCommand::SetIndexBuffer { buffer, format }),
    {
        self.commands.push(DrawCommand::SetIndexBuffer { buffer, format });
    }

    pub fn set_bind_group(&mut self, index: u32, bind_group: GpuHandle)
        ensures
            final(self)@ == old(self)@.push(DrawCommand::SetBindGroup { index, bind_group }),
    {
        self.commands.push(DrawCommand::SetBindGroup { index, bind_group });
    }

    pub fn draw_indexed(&mut self, index_count: u32, instance_count: u32)
        ensures
            final(self)@ == old(self)@.push(
                DrawCommand::DrawIndexed { index_count, instance_count },
            ),
    {
        self.commands.push(DrawCommand::DrawIndexed { index_count, instance_count });
    }

    /// The commands recorded so far, in order.
    pub fn finish(self) -> (commands: Vec<DrawCommand>)
        ensures
            commands@ == self@,
    {
        self.commands
    }
}

/// Drawing models into a render pass.
pub trait DrawModel {
    /// The commands that the pass holds.
    spec fn recorded(&self) -> Seq<DrawCommand>;

    /// Draws one mesh once.
    fn draw_mesh(&mut self, mesh: &DraftMesh, material: &DraftMaterial, camera_bind_group: GpuHandle)
        ensures
            final(self).recorded() == old(self).recorded() + mesh_commands(
                *mesh,
                *material,
                1,
                camera_bind_group,
            ),
    ;

    /// Draws every mesh of a model once, in order.
    fn draw_model(&mut self, model: &DraftModel, camera_bind_group: GpuHandle)
        requires
            model@.well_formed(),
        ensures
            final(self).recorded() == old(self).recorded() + model_commands(
                model@,
                model@.meshes.len() as int,
                1,
                camera_bind_group,
            ),
    ;

    /// Draws one mesh once for each of `instances`.
    fn draw_mesh_instanced(
        &mut self,
        mesh: &DraftMesh,
        material: &DraftMaterial,
        instances: &Vec<DraftInstance>,
        camera_bind_group: GpuHandle,
    )
        requires
            instances@.len() <= MAX_INSTANCES,
        ensures
            final(self).recorded() == old(self).recorded() + mesh_commands(
                *mesh,
                *material,
                instances@.len() as u32,
                camera_bind_group,
            ),
    ;

    /// Draws every mesh of a model, in order, once for each of `instances`.
    fn draw_model_instanced(
        &mut self,
        model: &DraftModel,
        instances: &Vec<DraftInstance>,
        camera_bind_group: GpuHandle,
    )
        requires
            model@.well_formed(),
            instances@.len() <= MAX_INSTANCES,
        ensures
            final(self).recorded() == old(self).recorded() + model_commands(
                model@,
                model@.meshes.len() as int,
                instances@.len() as u32,
                camera_bind_group,
            ),
    ;
}

impl DraftRenderPass {
    fn record_mesh(
        &mut self,
        mesh: &DraftMesh,
        material: &DraftMaterial,
        instance_count: u32,
        camera_bind_group: GpuHandle,
    )
        ensures
            final(self)@ == old(self)@ + mesh_commands(
                *mesh,
                *material,
                instance_count,
                camera_bind_group,
            ),
    {
        self.set_vertex_buffer(MESH_VERTEX_SLOT, VertexSource::Resource(mesh.vertex_buffer));
        self.set_index_buffer(mesh.index_buffer, IndexFormat::Uint32);
        self.set_bind_group(MATERIAL_BIND_GROUP, material.bind_group);
        self.set_bind_group(CAMERA_BIND_GROUP, camera_bind_group);
        self.draw_indexed(mesh.num_elements, instance_count);
        assert(self@ =~= old(self)@ + mesh_commands(
            *mesh,
            *material,
            instance_count,
            camera_bind_group,
        ));
    }

    fn record_model(&mut self, model: &DraftModel, instance_count: u32, camera_bind_group: GpuHandle)
        requires
            model@.well_formed(),
        ensures
            final(self)@ == old(self)@ + model_commands(
                model@,
                model@.meshes.len() as int,
                instance_count,
                camera_bind_group,
            ),
    {
        let mut i: usize = 0;
        assert(self@ =~= old(self)@ + model_commands(model@, 0, instance_count, camera_bind_group));
        while i < model.meshes.len()
            invariant
                i <= model.meshes.len(),
                model@.well_formed(),
                self@ == old(self)@ + model_commands(
                    model@,
                    i as int,
                    instance_count,
                    camera_bind_group,
                ),
            decreases model.meshes.len() - i,
        {
            let mesh = &model.meshes[i];
            assert(model@.meshes[i as int].material < model@.materials.len());
            let material = &model.materials[mesh.material];
            self.record_mesh(mesh, material, instance_count, camera_bind_group);
            assert(self@ =~= old(self)@ + model_commands(
                model@,
                i + 1,
                instance_count,
                camera_bind_group,
            ));
            i += 1;
        }
    }
}

impl DrawModel for DraftRenderPass {
    open spec fn recorded(&self) -> Seq<DrawCommand> {
        self@
    }

    fn draw_mesh(&mut self, mesh: &DraftMesh, material: &DraftMaterial, camera_bind_group: GpuHandle) {
        self.record_mesh(mesh, material, 1, camera_bind_group);
    }

    fn draw_model(&mut self, model: &DraftModel, camera_bind_group: GpuHandle) {
        self.record_model(model, 1, camera_bind_group);
    }

    fn draw_mesh_instanced(
        &mut self,
        mesh: &DraftMesh,
        material: &DraftMaterial,
        instances: &Vec<DraftInstance>,
        camera_bind_group: GpuHandle,
    ) {
        self.record_mesh(mesh, material, instances.len() as u32, camera_bind_group);
    }

    fn draw_model_instanced(
        &mut self,
        model: &DraftModel,
        instances: &Vec<DraftInstance>,
        camera_bind_group: GpuHandle,
    ) {
        self.record_model(model, instances.len() as u32, camera_bind_group);
    }
}

} // verus!
