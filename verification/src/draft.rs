//! The renderer: what it keeps from frame to frame, and what it decides.
//!
//! The renderer owns no window and no device. Its caller does: the caller
//! hands over each event of the window and each answer of the device, and
//! carries out what the renderer returns. One frame is three steps in a fixed
//! order: the camera is updated, its uniform is written, and the frame is
//! rendered. A step taken out of order does nothing.

use vstd::prelude::*;
use crate::bytes::in_memory;
use crate::draft_camera::draft_camera_manager::DraftCameraManager;
use crate::draft_camera::draft_camera_manager::active_after_key;
use crate::draft_camera::draft_camera_manager::default_cameras;
use crate::draft_camera::draft_camera_variant::DraftCameraVariant;
use crate::linear::one;
use crate::draft_camera::draft_camera_uniform::DraftCameraUniform;
use crate::draft_camera::DraftCamera;
use crate::draft_instance::RAW_INSTANCE_SIZE;
use crate::draft_model::model_commands;
use crate::draft_model::ModelView;
use crate::draft_model::DraftModel;
use crate::draft_model::DraftRenderPass;
use crate::draft_model::DrawCommand;
use crate::draft_model::DrawModel;
use crate::draft_model::GpuHandle;
use crate::draft_model::VertexSource;
use crate::draft_model::INSTANCE_VERTEX_SLOT;
use crate::draft_model_manager::after_add;
use crate::draft_pipeline::create_render_pipeline;
use crate::draft_pipeline::PrimitiveTopology;
use crate::draft_pipeline::RenderPipelineDescription;
use crate::draft_model_manager::outcome_of;
use crate::draft_model_manager::loaded_view;
use crate::draft_model_manager::store_wf;
use crate::draft_model_manager::entry_wf;
use crate::draft_model_manager::AddRequest;
use crate::draft_model_manager::DraftAddOutcome;
use crate::draft_model_manager::DraftLoadError;
use crate::draft_model_manager::DraftModelManager;
use crate::draft_model_manager::EntryView;
use crate::input::KeyCode;
use crate::input::MouseButton;
use crate::input::PhysicalKey;
use crate::input::WindowEvent;
use crate::linear::Mat4;
use crate::linear::Vec3;
use crate::util::size::Size;

verus! {

/// The width of the surface before the window has said its size.
pub const INITIAL_WIDTH: u32 = 600u32;

/// The height of the surface before the window has said its size.
pub const INITIAL_HEIGHT: u32 = 400u32;

/// How many frames the surface may queue.
pub const MAXIMUM_FRAME_LATENCY: u32 = 2u32;

/// The model that the enter key adds to the scene.
pub const DEFAULT_MODEL: &'static str = "cube.obj";

/// Where the renderer runs.
#[derive(Debug, Clone, Copy, PartialEq, Eq, Structural)]
pub enum DraftAppType {
    Desktop,
    Web,
}

/// A texture format of the device, by the number that the caller gives it.
#[derive(Clone, Copy, Debug, PartialEq, Eq, Structural)]
pub struct TextureFormat {
    pub code: u32,
}

/// A way of blending the surface with what lies behind the window, by the
/// number that the caller gives it.
#[derive(Clone, Copy, Debug, PartialEq, Eq, Structural)]
pub struct CompositeAlphaMode {
    pub code: u32,
}

/// What the surface's textures are used for.
#[derive(Clone, Copy, Debug, PartialEq, Eq, Structural)]
pub enum TextureUsages {
    RenderAttachment,
}

/// When a finished frame is shown.
#[derive(Clone, Copy, Debug, PartialEq, Eq, Structural)]
pub enum PresentMode {
    /// In turn, at the display's own pace.
    Fifo,
}

/// How the surface is set up.
#[derive(Clone, Copy, Debug, PartialEq, Eq, Structural)]
pub struct SurfaceConfiguration {
    pub usage: TextureUsages,
    pub format: TextureFormat,
    pub width: u32,
    pub height: u32,
    pub present_mode: PresentMode,
    pub alpha_mode: CompositeAlphaMode,
    pub desired_maximum_frame_latency: u32,
}

/// Why the surface gave no image to draw on.
#[derive(Clone, Copy, Debug, PartialEq, Eq, Structural)]
pub enum SurfaceError {
    Timeout,
    Outdated,
    Lost,
    OutOfMemory,
}

/// How far the renderer has come.
#[derive(Clone, Copy, Debug, PartialEq, Eq, Structural)]
pub enum DraftPhase {
    /// No surface has been set up.
    Uninitialized,
    /// The surface is set up and no frame has been drawn.
    Configured,
    /// Frames are being drawn.
    Rendering,
    /// The window was closed.
    Closed,
}

/// How far the current frame has come.
#[derive(Clone, Copy, Debug, PartialEq, Eq, Structural)]
pub enum FrameStep {
    /// Nothing has been done for the next frame.
    Idle,
    /// The camera has been updated.
    CameraUpdated,
    /// The camera has been updated and its uniform written.
    UniformWritten,
}

/// What the caller is to do after an event of the window.
#[derive(Clone, Copy, Debug, PartialEq, Eq, Structural)]
pub enum DraftAction {
    /// Nothing.
    Nothing,
    /// Leave the event loop.
    Exit,
    /// Set the surface up anew, like this.
    Configure(SurfaceConfiguration),
    /// Add an instance of [`DEFAULT_MODEL`] to the scene.
    AddModel,
    /// Run one frame, then ask the window for the next redraw.
    Redraw,
}

/// What the caller is to do with a frame.
#[derive(Debug)]
pub enum FrameAction {
    /// Record these commands in one render pass, submit it, and present the
    /// image.
    Draw(Vec<DrawCommand>),
    /// Draw nothing; the surface was lost. Set it up anew, like this.
    Reconfigure(SurfaceConfiguration),
    /// Draw nothing; report the error.
    Dropped(SurfaceError),
    /// Draw nothing; the renderer was not ready for a frame.
    Skipped,
}

/// The surface set up for `width` by `height` in `format`.
pub open spec fn configuration_for(
    format: TextureFormat,
    alpha_mode: CompositeAlphaMode,
    width: u32,
    height: u32,
) -> SurfaceConfiguration {
    SurfaceConfiguration {
        usage: TextureUsages::RenderAttachment,
        format,
        width,
        height,
        present_mode: PresentMode::Fifo,
        alpha_mode,
        desired_maximum_frame_latency: MAXIMUM_FRAME_LATENCY,
    }
}

/// The commands that draw all instances of the model at place `i`: its
/// instance buffer is bound, then each mesh is drawn.
pub open spec fn entry_commands(
    entries: Seq<EntryView>,
    i: int,
    camera_bind_group: GpuHandle,
) -> Seq<DrawCommand> {
    seq![
        DrawCommand::SetVertexBuffer {
            slot: INSTANCE_VERTEX_SLOT,
            source: VertexSource::Instances(i as usize),
        },
    ] + model_commands(
        entries[i].model,
        entries[i].model.meshes.len() as int,
        entries[i].instances.len() as u32,
        camera_bind_group,
    )
}

/// The commands that draw the models at the first `n` places.
pub open spec fn scene_commands(
    entries: Seq<EntryView>,
    n: int,
    camera_bind_group: GpuHandle,
) -> Seq<DrawCommand>
    decreases n,
{
    if n <= 0 {
        Seq::empty()
    } else {
        scene_commands(entries, n - 1, camera_bind_group) + entry_commands(
            entries,
            n - 1,
            camera_bind_group,
        )
    }
}

/// The commands of one frame: the pipeline is bound, then every model of the
/// store is drawn, in the store's order.
pub open spec fn frame_commands(
    pipeline: GpuHandle,
    entries: Seq<EntryView>,
    camera_bind_group: GpuHandle,
) -> Seq<DrawCommand> {
    seq![DrawCommand::SetPipeline { pipeline }] + scene_commands(
        entries,
        entries.len() as int,
        camera_bind_group,
    )
}

/// What the renderer is, as plain values.
pub struct DraftView {
    pub app_type: DraftAppType,
    pub phase: DraftPhase,
    pub step: FrameStep,
    /// The last size that the window gave, or the initial one.
    pub width: u32,
    pub height: u32,
    /// How the surface is set up, once it is.
    pub configuration: Option<SurfaceConfiguration>,
    pub uniform: DraftCameraUniform,
    pub cameras: Seq<DraftCameraVariant>,
    /// The index of the camera in use.
    pub active: int,
    pub models: Seq<EntryView>,
    pub mouse_pressed: bool,
}

impl DraftView {
    /// Whether frames can be drawn.
    pub open spec fn ready(self) -> bool {
        self.phase == DraftPhase::Configured || self.phase == DraftPhase::Rendering
    }

    /// What holds of the renderer at all times: the camera in use is one of
    /// its cameras, its store is sound, its size has an area, once it is
    /// ready for frames its surface is set up, and a uniform that counts as
    /// written holds the place of the camera in use.
    pub open spec fn well_formed(self) -> bool {
        &&& 0 <= self.active < self.cameras.len()
        &&& store_wf(self.models)
        &&& self.width > 0
        &&& self.height > 0
        &&& self.ready() ==> self.configuration is Some
        &&& self.step == FrameStep::UniformWritten ==> self.uniform.view_position
            == self.cameras[self.active].spec_position().extended(one())
    }

    /// The renderer as it is made.
    pub open spec fn initial(app_type: DraftAppType, camera_matrix: Mat4) -> DraftView {
        DraftView {
            app_type,
            phase: DraftPhase::Uninitialized,
            step: FrameStep::Idle,
            width: INITIAL_WIDTH,
            height: INITIAL_HEIGHT,
            configuration: None,
            uniform: DraftCameraUniform::of(default_cameras()[0].spec_position(), camera_matrix),
            cameras: default_cameras(),
            active: 0,
            models: Seq::empty(),
            mouse_pressed: false,
        }
    }

    /// Whether the surface can be set up for the first time.
    pub open spec fn can_init(
        self,
        width: u32,
        height: u32,
        formats: Seq<TextureFormat>,
        alpha_modes: Seq<CompositeAlphaMode>,
    ) -> bool {
        &&& self.phase == DraftPhase::Uninitialized
        &&& width > 0
        &&& height > 0
        &&& formats.len() > 0
        &&& alpha_modes.len() > 0
    }

    /// The renderer after its surface was set up like `configuration`.
    pub open spec fn initialized(self, configuration: SurfaceConfiguration) -> DraftView {
        DraftView { phase: DraftPhase::Configured, configuration: Some(configuration), ..self }
    }

    /// The renderer after the window took a size with an area.
    pub open spec fn resized(self, width: u32, height: u32) -> DraftView {
        DraftView {
            step: FrameStep::Idle,
            width,
            height,
            cameras: Seq::new(self.cameras.len(), |i: int| self.cameras[i].resized(width, height)),
            configuration: match self.configuration {
                Some(c) => Some(SurfaceConfiguration { width, height, ..c }),
                None => None,
            },
            ..self
        }
    }

    /// The renderer after a request to resize: a size without area changes
    /// nothing.
    pub open spec fn after_resize(self, width: u32, height: u32) -> DraftView {
        if width == 0 || height == 0 {
            self
        } else {
            self.resized(width, height)
        }
    }

    /// Whether input handling takes an event, so that nothing else is done
    /// with it.
    pub open spec fn input_takes(self, event: WindowEvent) -> bool {
        match event {
            WindowEvent::KeyboardInput { physical_key, logical_key, state } => self.cameras[active_after_key(
                self.cameras.len(),
                self.active,
                physical_key,
            )].handles_key(physical_key, logical_key),
            WindowEvent::MouseWheel { amount } => true,
            WindowEvent::MouseInput { state, button } => button == MouseButton::Left,
            _ => false,
        }
    }

    /// The renderer after input handling saw an event.
    ///
    /// A key that selects a camera does so, then the camera in use hears of
    /// the key. The wheel goes to the camera in use. The left button is
    /// remembered as up or down. Whatever reaches a camera makes the frame
    /// start over.
    pub open spec fn after_input(self, event: WindowEvent) -> DraftView {
        match event {
            WindowEvent::KeyboardInput { physical_key, logical_key, state } => {
                let active = active_after_key(self.cameras.len(), self.active, physical_key);
                DraftView {
                    step: FrameStep::Idle,
                    active,
                    cameras: self.cameras.update(
                        active,
                        self.cameras[active].after_key(physical_key, logical_key, state),
                    ),
                    ..self
                }
            },
            WindowEvent::MouseWheel { amount } => DraftView {
                step: FrameStep::Idle,
                cameras: self.cameras.update(
                    self.active,
                    self.cameras[self.active].after_scroll(amount),
                ),
                ..self
            },
            WindowEvent::MouseInput { state, button } => if button == MouseButton::Left {
                DraftView { mouse_pressed: state.pressed(), ..self }
            } else {
                self
            },
            _ => self,
        }
    }

    /// The renderer after an event of the window.
    pub open spec fn after_event(self, event: WindowEvent) -> DraftView {
        if self.input_takes(event) {
            self.after_input(event)
        } else {
            match event {
                WindowEvent::CloseRequested => DraftView { phase: DraftPhase::Closed, ..self },
                WindowEvent::Resized { width, height } => self.after_resize(width, height),
                _ => self.after_input(event),
            }
        }
    }

    /// What the caller is to do after an event of the window.
    pub open spec fn action_for(self, event: WindowEvent) -> DraftAction {
        if self.input_takes(event) {
            DraftAction::Nothing
        } else {
            match event {
                WindowEvent::CloseRequested => DraftAction::Exit,
                WindowEvent::Resized { width, height } => match self.after_resize(
                    width,
                    height,
                ).configuration {
                    Some(c) => if width == 0 || height == 0 {
                        DraftAction::Nothing
                    } else {
                        DraftAction::Configure(c)
                    },
                    None => DraftAction::Nothing,
                },
                WindowEvent::KeyboardInput { physical_key, logical_key, state } => if physical_key
                    == PhysicalKey::Code(KeyCode::Enter) {
                    DraftAction::AddModel
                } else {
                    DraftAction::Nothing
                },
                WindowEvent::RedrawRequested => if self.ready() {
                    DraftAction::Redraw
                } else {
                    DraftAction::Nothing
                },
                _ => DraftAction::Nothing,
            }
        }
    }

    /// The renderer after the first step of a frame: the camera in use has
    /// moved to `moved`, if it is one that moves.
    pub open spec fn after_update_camera(self, moved: DraftCamera) -> DraftView {
        DraftView {
            step: FrameStep::CameraUpdated,
            cameras: self.cameras.update(self.active, self.cameras[self.active].after_update(moved)),
            ..self
        }
    }

    /// The renderer after the second step of a frame, which is taken only
    /// after the first: the uniform holds the camera in use.
    pub open spec fn after_update(self, camera_matrix: Mat4) -> DraftView {
        if self.step == FrameStep::CameraUpdated {
            DraftView {
                step: FrameStep::UniformWritten,
                uniform: DraftCameraUniform::of(
                    self.cameras[self.active].spec_position(),
                    camera_matrix,
                ),
                ..self
            }
        } else {
            self
        }
    }

    /// Whether the third step of a frame can be taken: the surface is set
    /// up and the uniform is written.
    pub open spec fn can_render(self) -> bool {
        self.ready() && self.step == FrameStep::UniformWritten
    }

    /// The renderer after the third step of a frame, given what the surface
    /// answered when asked for an image.
    pub open spec fn after_render(self, acquired: Result<(), SurfaceError>) -> DraftView {
        if !self.can_render() {
            self
        } else {
            match acquired {
                Ok(_) => DraftView { phase: DraftPhase::Rendering, step: FrameStep::Idle, ..self },
                Err(SurfaceError::Lost) => self.resized(self.width, self.height),
                Err(_) => DraftView { step: FrameStep::Idle, ..self },
            }
        }
    }
}

/// Whether every draw among `commands` covers exactly `count` instances.
pub open spec fn draws_cover(commands: Seq<DrawCommand>, count: u32) -> bool {
    forall|k: int|
        0 <= k < commands.len() ==> ((#[trigger] commands[k]) matches DrawCommand::DrawIndexed {
            index_count,
            instance_count,
        } ==> instance_count == count)
}

/// The draws of a model cover the instances that they were recorded for.
pub proof fn lemma_model_draws_cover(
    model: ModelView,
    n: int,
    instance_count: u32,
    camera_bind_group: GpuHandle,
)
    ensures
        draws_cover(model_commands(model, n, instance_count, camera_bind_group), instance_count),
    decreases n,
{
    if n > 0 {
        lemma_model_draws_cover(model, n - 1, instance_count, camera_bind_group);
    }
}

/// Every draw of a frame covers the instances that the bound instance buffer
/// was made for.
///
/// Of a sound store and each of its places: the commands for that place
/// begin by binding the place's instance buffer, and every draw among them
/// covers as many instances as that buffer holds, which is as many as the
/// place has.
pub proof fn lemma_draws_match_buffers(
    entries: Seq<EntryView>,
    i: int,
    camera_bind_group: GpuHandle,
)
    requires
        store_wf(entries),
        0 <= i < entries.len(),
    ensures
        entry_commands(entries, i, camera_bind_group)[0] == (DrawCommand::SetVertexBuffer {
            slot: INSTANCE_VERTEX_SLOT,
            source: VertexSource::Instances(i as usize),
        }),
        entries[i].buffer.instance_count == entries[i].instances.len(),
        entries[i].buffer.size == RAW_INSTANCE_SIZE * entries[i].instances.len(),
        draws_cover(
            entry_commands(entries, i, camera_bind_group),
            entries[i].buffer.instance_count,
        ),
{
    assert(entry_wf(entries[i]));
    lemma_model_draws_cover(
        entries[i].model,
        entries[i].model.meshes.len() as int,
        entries[i].instances.len() as u32,
        camera_bind_group,
    );
}

/// The three steps of a frame, taken in order, end in a frame exactly where
/// the surface is set up; without the second step, or with the second step
/// before the first, there is no frame.
pub proof fn lemma_frame_order(view: DraftView, moved: DraftCamera, camera_matrix: Mat4)
    ensures
        view.after_update_camera(moved).after_update(camera_matrix).can_render() == view.ready(),
        !view.after_update_camera(moved).can_render(),
        view.step == FrameStep::Idle ==> !view.after_update(camera_matrix).can_render(),
{
}

/// A lost surface costs one frame and no more.
///
/// Of a renderer that is about to render and is told that its surface is
/// lost: it stays ready, its surface configuration has the size that the
/// renderer had, every camera has that size, and the three steps of the next
/// frame end in a frame.
pub proof fn lemma_lost_surface_recovers(view: DraftView, moved: DraftCamera, camera_matrix: Mat4)
    requires
        view.well_formed(),
        view.can_render(),
    ensures
        ({
            let lost = view.after_render(Err(SurfaceError::Lost));
            &&& lost.well_formed()
            &&& lost.ready()
            &&& lost.step == FrameStep::Idle
            &&& lost.models == view.models
            &&& lost.configuration matches Some(c) && c.width == view.width && c.height
                == view.height
            &&& forall|i: int|
                0 <= i < lost.cameras.len() ==> (#[trigger] lost.cameras[i]).projection().aspect_is(
                    view.width,
                    view.height,
                )
            &&& lost.after_update_camera(moved).after_update(camera_matrix).can_render()
        }),
{
    let lost = view.after_render(Err(SurfaceError::Lost));
    assert forall|i: int| 0 <= i < lost.cameras.len() implies (#[trigger] lost.cameras[i]).projection().aspect_is(
        view.width,
        view.height,
    ) by {
        assert(view.width * view.height == view.height * view.width) by (nonlinear_arith);
    }
}

/// A resize without area changes nothing; any other resize gives every
/// camera, in use or not, the aspect ratio of the new size.
pub proof fn lemma_resize(view: DraftView, width: u32, height: u32)
    requires
        view.well_formed(),
    ensures
        view.after_resize(width, height).well_formed(),
        width == 0 || height == 0 ==> view.after_resize(width, height) == view,
        width > 0 && height > 0 ==> forall|i: int|
            0 <= i < view.cameras.len() ==> (#[trigger] view.after_resize(
                width,
                height,
            ).cameras[i]).projection().aspect_is(width, height),
{
    assert(width * height == height * width) by (nonlinear_arith);
}

/// The renderer.
pub struct Draft {
    app_type: DraftAppType,
    phase: DraftPhase,
    step: FrameStep,
    size: Size<u32>,
    surface_configuration: Option<SurfaceConfiguration>,
    camera_uniform: DraftCameraUniform,
    camera_manager: DraftCameraManager,
    model_manager: DraftModelManager,
    mouse_pressed: bool,
}

impl View for Draft {
    type V = DraftView;

    closed spec fn view(&self) -> DraftView {
        DraftView {
            app_type: self.app_type,
            phase: self.phase,
            step: self.step,
            width: self.size.width,
            height: self.size.height,
            configuration: self.surface_configuration,
            uniform: self.camera_uniform,
            cameras: self.camera_manager.cameras(),
            active: self.camera_manager.active_index(),
            models: self.model_manager@,
            mouse_pressed: self.mouse_pressed,
        }
    }
}

impl Draft {
    /// See [`DraftView::well_formed`].
    pub open spec fn well_formed(&self) -> bool {
        self@.well_formed()
    }

    /// A renderer with the two default cameras, the first in use, and an
    /// empty scene. `camera_matrix` is the product of the projection and
    /// view matrices of the first camera.
    pub fn new(app_type: DraftAppType, camera_matrix: Mat4) -> (r: Draft)
        ensures
            r.well_formed(),
            r@ == DraftView::initial(app_type, camera_matrix),
    {
        let camera_manager = DraftCameraManager::new();
        let mut camera_uniform = DraftCameraUniform::new();
        camera_manager.update_view_proj(&mut camera_uniform, camera_matrix);
        Draft {
            app_type,
            phase: DraftPhase::Uninitialized,
            step: FrameStep::Idle,
            size: Size { width: INITIAL_WIDTH, height: INITIAL_HEIGHT },
            surface_configuration: None,
            camera_uniform,
            camera_manager,
            model_manager: DraftModelManager::new(),
            mouse_pressed: false,
        }
    }

    pub fn app_type(&self) -> (r: DraftAppType)
        ensures
            r == self@.app_type,
    {
        self.app_type
    }

    pub fn phase(&self) -> (r: DraftPhase)
        ensures
            r == self@.phase,
    {
        self.phase
    }

    pub fn step(&self) -> (r: FrameStep)
        ensures
            r == self@.step,
    {
        self.step
    }

    /// The last size that the window gave, or the initial one.
    pub fn size(&self) -> (r: Size<u32>)
        ensures
            r.width == self@.width,
            r.height == self@.height,
    {
        self.size
    }

    pub fn surface_configuration(&self) -> (r: Option<SurfaceConfiguration>)
        ensures
            r == self@.configuration,
    {
        self.surface_configuration
    }

    pub fn camera_uniform(&self) -> (r: DraftCameraUniform)
        ensures
            r == self@.uniform,
    {
        self.camera_uniform
    }

    pub fn camera_manager(&self) -> (r: &DraftCameraManager)
        ensures
            r.cameras() == self@.cameras,
            r.active_index() == self@.active,
            self.well_formed() ==> r.well_formed(),
    {
        &self.camera_manager
    }

    pub fn model_manager(&self) -> (r: &DraftModelManager)
        ensures
            r@ == self@.models,
            self.well_formed() ==> r.well_formed(),
    {
        &self.model_manager
    }

    pub fn mouse_pressed(&self) -> (r: bool)
        ensures
            r == self@.mouse_pressed,
    {
        self.mouse_pressed
    }

    /// Sets the surface up for the first time.
    ///
    /// `formats` and `alpha_modes` are what the surface can do, best first.
    /// It succeeds once, on a renderer that is not set up, for a size with an
    /// area and where both lists have a first entry. Then the renderer is
    /// ready for frames, and the result is how the caller is to set up the
    /// surface. In every other case nothing changes.
    pub fn init(
        &mut self,
        width: u32,
        height: u32,
        formats: &Vec<TextureFormat>,
        alpha_modes: &Vec<CompositeAlphaMode>,
    ) -> (configuration: Option<SurfaceConfiguration>)
        requires
            old(self).well_formed(),
        ensures
            final(self).well_formed(),
            configuration == (if old(self)@.can_init(width, height, formats@, alpha_modes@) {
                Some(configuration_for(formats@[0], alpha_modes@[0], width, height))
            } else {
                None
            }),
            final(self)@ == (match configuration {
                Some(c) => old(self)@.initialized(c),
                None => old(self)@,
            }),
    {
        match self.phase {
            DraftPhase::Uninitialized => {},
            _ => {
                return None;
            },
        }
        if width == 0 || height == 0 || formats.len() == 0 || alpha_modes.len() == 0 {
            return None;
        }
        let configuration = SurfaceConfiguration {
            usage: TextureUsages::RenderAttachment,
            format: formats[0],
            width,
            height,
            present_mode: PresentMode::Fifo,
            alpha_mode: alpha_modes[0],
            desired_maximum_frame_latency: MAXIMUM_FRAME_LATENCY,
        };
        self.surface_configuration = Some(configuration);
        self.phase = DraftPhase::Configured;
        Some(configuration)
    }

    /// The pipeline that draws the scene in `primitive`s, once the surface
    /// is set up and its format known; see
    /// [`RenderPipelineDescription::draws`].
    pub fn create_render_pipeline(&self, primitive: PrimitiveTopology) -> (pipeline: Option<
        RenderPipelineDescription,
    >)
        ensures
            pipeline is Some <==> self@.configuration is Some,
            pipeline is Some ==> pipeline->Some_0.draws(
                primitive,
                self@.configuration->Some_0.format,
            ),
    {
        match self.surface_configuration {
            Some(c) => Some(create_render_pipeline(primitive, c.format)),
            None => None,
        }
    }

    /// The pipeline that draws the scene in triangles.
    pub fn create_triangle_pipeline(&self) -> (pipeline: Option<RenderPipelineDescription>)
        ensures
            pipeline is Some <==> self@.configuration is Some,
            pipeline is Some ==> pipeline->Some_0.draws(
                PrimitiveTopology::TriangleList,
                self@.configuration->Some_0.format,
            ),
    {
        self.create_render_pipeline(PrimitiveTopology::TriangleList)
    }

    /// Takes a new size of the window.
    ///
    /// A size without area, as of a minimised window, changes nothing at
    /// all. Any other size is kept, every camera is told of it, whether it
    /// is in use or not, and where the surface is set up its configuration
    /// takes the size: the result is then how the caller is to set the
    /// surface up anew.
    pub fn resize(&mut self, width: u32, height: u32) -> (configuration: Option<SurfaceConfiguration>)
        requires
            old(self).well_formed(),
        ensures
            final(self).well_formed(),
            final(self)@ == old(self)@.after_resize(width, height),
            configuration == (if width == 0 || height == 0 {
                None
            } else {
                final(self)@.configuration
            }),
            width == 0 || height == 0 ==> final(self)@ == old(self)@,
            width > 0 && height > 0 ==> forall|i: int|
                0 <= i < final(self)@.cameras.len() ==> (#[trigger] final(self)@.cameras[i]).projection().aspect_is(width, height),
    {
        if width == 0 || height == 0 {
            return None;
        }
        self.size = Size { width, height };
        self.step = FrameStep::Idle;
        self.camera_manager.resize_camera(width, height);
        let configuration = match self.surface_configuration {
            Some(c) => Some(
                SurfaceConfiguration {
                    usage: c.usage,
                    format: c.format,
                    width,
                    height,
                    present_mode: c.present_mode,
                    alpha_mode: c.alpha_mode,
                    desired_maximum_frame_latency: c.desired_maximum_frame_latency,
                },
            ),
            None => None,
        };
        self.surface_configuration = configuration;
        assert(self@.cameras =~= old(self)@.resized(width, height).cameras);
        configuration
    }

    /// Hands an event to input handling. Returns whether the event was
    /// taken there, so that nothing else is to be done with it.
    pub fn input(&mut self, event: &WindowEvent) -> (taken: bool)
        requires
            old(self).well_formed(),
        ensures
            final(self).well_formed(),
            taken == old(self)@.input_takes(*event),
            final(self)@ == old(self)@.after_input(*event),
    {
        match event {
            WindowEvent::KeyboardInput { physical_key, logical_key, state } => {
                self.step = FrameStep::Idle;
                self.camera_manager.process_keyboard(physical_key, logical_key, *state)
            },
            WindowEvent::MouseWheel { amount } => {
                self.step = FrameStep::Idle;
                self.camera_manager.process_scroll(*amount);
                true
            },
            WindowEvent::MouseInput { state, button: MouseButton::Left } => {
                self.mouse_pressed = state.is_pressed();
                true
            },
            _ => false,
        }
    }

    /// Takes an event of the window and says what the caller is to do.
    ///
    /// Input handling sees the event first; what it takes ends there.
    /// Otherwise: closing ends the loop; a new size is taken as by
    /// [`Draft::resize`]; the enter key asks for one more instance of
    /// [`DEFAULT_MODEL`]; a redraw request asks for a frame where the
    /// surface is set up.
    pub fn window_event(&mut self, event: WindowEvent) -> (action: DraftAction)
        requires
            old(self).well_formed(),
        ensures
            final(self).well_formed(),
            action == old(self)@.action_for(event),
            final(self)@ == old(self)@.after_event(event),
    {
        if self.input(&event) {
            return DraftAction::Nothing;
        }
        match event {
            WindowEvent::CloseRequested => {
                self.phase = DraftPhase::Closed;
                DraftAction::Exit
            },
            WindowEvent::Resized { width, height } => {
                match self.resize(width, height) {
                    Some(c) => DraftAction::Configure(c),
                    None => DraftAction::Nothing,
                }
            },
            WindowEvent::KeyboardInput { physical_key, logical_key, state } => {
                match physical_key {
                    PhysicalKey::Code(KeyCode::Enter) => DraftAction::AddModel,
                    _ => DraftAction::Nothing,
                }
            },
            WindowEvent::RedrawRequested => {
                match self.phase {
                    DraftPhase::Configured | DraftPhase::Rendering => DraftAction::Redraw,
                    _ => DraftAction::Nothing,
                }
            },
            _ => DraftAction::Nothing,
        }
    }

    /// The first step of a frame: the camera in use ends its update at
    /// `moved`; see [`crate::draft_camera::DraftCameraController::update_camera`].
    /// Returns whether that camera is one that moves.
    pub fn update_camera(&mut self, moved: DraftCamera) -> (changed: bool)
        requires
            old(self).well_formed(),
        ensures
            final(self).well_formed(),
            final(self)@ == old(self)@.after_update_camera(moved),
            changed == old(self)@.cameras[old(self)@.active] is Perspective,
            !moved.pitch.nan() ==> final(self)@.cameras[final(self)@.active].pitch_safe(),
    {
        self.step = FrameStep::CameraUpdated;
        self.camera_manager.update_camera(moved)
    }

    /// The second step of a frame: the uniform takes the camera in use and
    /// `camera_matrix`, the product of that camera's projection and view
    /// matrices. Returns the bytes to copy into the uniform buffer, or `None`
    /// where the first step was not taken just before: then nothing changes.
    pub fn update(&mut self, camera_matrix: Mat4) -> (bytes: Option<Vec<u8>>)
        requires
            old(self).well_formed(),
        ensures
            final(self).well_formed(),
            final(self)@ == old(self)@.after_update(camera_matrix),
            bytes is Some <==> old(self)@.step == FrameStep::CameraUpdated,
            bytes is Some ==> in_memory(final(self)@.uniform.words(), bytes->Some_0@),
    {
        match self.step {
            FrameStep::CameraUpdated => {
                self.camera_manager.update_view_proj(&mut self.camera_uniform, camera_matrix);
                self.step = FrameStep::UniformWritten;
                Some(self.camera_uniform.to_bytes())
            },
            _ => None,
        }
    }

    /// Asks for one more instance of a model; see
    /// [`DraftModelManager::add_model`].
    pub fn add_model(
        &mut self,
        file_name: &str,
        position: Option<Vec3>,
        loaded: Option<Result<DraftModel, DraftLoadError>>,
    ) -> (outcome: DraftAddOutcome)
        requires
            old(self).well_formed(),
        ensures
            final(self).well_formed(),
            outcome == outcome_of(
                old(self)@.models,
                AddRequest { name: file_name@, position, loaded: loaded_view(loaded) },
            ),
            final(self)@ == (DraftView {
                models: after_add(
                    old(self)@.models,
                    AddRequest { name: file_name@, position, loaded: loaded_view(loaded) },
                ),
                ..old(self)@
            }),
    {
        self.model_manager.add_model(file_name, position, loaded)
    }

    /// The third step of a frame.
    ///
    /// `acquired` is what the surface answered when asked for an image. With
    /// an image, the result is the commands that draw the scene. Without one
    /// nothing is drawn: a lost surface is to be set up anew for the size
    /// that the renderer has, and any other error is only reported. Where the
    /// surface is not set up, or the uniform was not written just before,
    /// the frame is skipped and nothing changes.
    pub fn render(
        &mut self,
        acquired: Result<(), SurfaceError>,
        pipeline: GpuHandle,
        camera_bind_group: GpuHandle,
    ) -> (action: FrameAction)
        requires
            old(self).well_formed(),
        ensures
            final(self).well_formed(),
            final(self)@ == old(self)@.after_render(acquired),
            !old(self)@.can_render() ==> action is Skipped,
            old(self)@.can_render() ==> (match acquired {
                Ok(_) => action matches FrameAction::Draw(commands) && commands@ == frame_commands(
                    pipeline,
                    old(self)@.models,
                    camera_bind_group,
                ),
                Err(SurfaceError::Lost) => action matches FrameAction::Reconfigure(c) && Some(c)
                    == final(self)@.configuration && c.width == old(self)@.width && c.height
                    == old(self)@.height,
                Err(e) => action matches FrameAction::Dropped(d) && d == e,
            }),
    {
        match self.phase {
            DraftPhase::Configured | DraftPhase::Rendering => {},
            _ => {
                return FrameAction::Skipped;
            },
        }
        match self.step {
            FrameStep::UniformWritten => {},
            _ => {
                return FrameAction::Skipped;
            },
        }
        match acquired {
            Ok(_) => {
                self.phase = DraftPhase::Rendering;
                self.step = FrameStep::Idle;
                FrameAction::Draw(self.record(pipeline, camera_bind_group))
            },
            Err(SurfaceError::Lost) => {
                let width = self.size.width;
                let height = self.size.height;
                match self.resize(width, height) {
                    Some(c) => FrameAction::Reconfigure(c),
                    None => FrameAction::Skipped,
                }
            },
            Err(e) => {
                self.step = FrameStep::Idle;
                FrameAction::Dropped(e)
            },
        }
    }

    /// The commands of one frame for the scene as it is.
    fn record(&self, pipeline: GpuHandle, camera_bind_group: GpuHandle) -> (commands: Vec<
        DrawCommand,
    >)
        requires
            store_wf(self@.models),
        ensures
            commands@ == frame_commands(pipeline, self@.models, camera_bind_group),
    {
        let mut render_pass = DraftRenderPass::new();
        render_pass.set_pipeline(pipeline);
        let manager_models = self.model_manager.models();
        let models = manager_models.0;
        let instances = manager_models.1;
        let ghost entries = self@.models;
        let mut i: usize = 0;
        assert(render_pass@ =~= seq![DrawCommand::SetPipeline { pipeline }] + scene_commands(
            entries,
            0,
            camera_bind_group,
        ));
        while i < models.len()
            invariant
                i <= models@.len(),
                entries == self@.models,
                store_wf(entries),
                models@.len() == entries.len(),
                instances@.len() == entries.len(),
                forall|j: int| 0 <= j < entries.len() ==> (#[trigger] models@[j])@ == entries[j].model,
                forall|j: int|
                    0 <= j < entries.len() ==> (#[trigger] instances@[j])@ == entries[j].instances,
                render_pass@ == seq![DrawCommand::SetPipeline { pipeline }] + scene_commands(
                    entries,
                    i as int,
                    camera_bind_group,
                ),
            decreases models@.len() - i,
        {
            assert(entry_wf(entries[i as int]));
            assert(models@[i as int]@ == entries[i as int].model);
            assert(instances@[i as int]@ == entries[i as int].instances);
            render_pass.set_vertex_buffer(INSTANCE_VERTEX_SLOT, VertexSource::Instances(i));
            render_pass.draw_model_instanced(models[i], instances[i], camera_bind_group);
            assert(render_pass@ =~= seq![DrawCommand::SetPipeline { pipeline }] + scene_commands(
                entries,
                i + 1,
                camera_bind_group,
            ));
            i += 1;
        }
        render_pass.finish()
    }
}

} // verus!
