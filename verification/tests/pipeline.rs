use draft_kernel::draft::CompositeAlphaMode;
use draft_kernel::draft::Draft;
use draft_kernel::draft::DraftAppType;
use draft_kernel::draft::TextureFormat;
use draft_kernel::draft_instance::DraftInstanceRaw;
use draft_kernel::draft_pipeline::camera_bind_group_layout;
use draft_kernel::draft_pipeline::create_render_pipeline;
use draft_kernel::draft_pipeline::texture_bind_group_layout;
use draft_kernel::draft_pipeline::BindGroupLayoutEntry;
use draft_kernel::draft_pipeline::BindingType;
use draft_kernel::draft_pipeline::BlendState;
use draft_kernel::draft_pipeline::ColorTargetState;
use draft_kernel::draft_pipeline::ColorWrites;
use draft_kernel::draft_pipeline::Face;
use draft_kernel::draft_pipeline::FrontFace;
use draft_kernel::draft_pipeline::MultisampleState;
use draft_kernel::draft_pipeline::PolygonMode;
use draft_kernel::draft_pipeline::PrimitiveState;
use draft_kernel::draft_pipeline::PrimitiveTopology;
use draft_kernel::draft_pipeline::ShaderStage;
use draft_kernel::draft_pipeline::FRAGMENT_ENTRY_POINT;
use draft_kernel::draft_pipeline::VERTEX_ENTRY_POINT;
use draft_kernel::draft_vertex::DraftModelVertex;
use draft_kernel::linear::Mat4;

#[test]
fn a_material_binds_texture_and_sampler() {
    assert_eq!(
        texture_bind_group_layout(),
        vec![
            BindGroupLayoutEntry {
                binding: 0,
                visibility: ShaderStage::Fragment,
                ty: BindingType::Texture
            },
            BindGroupLayoutEntry {
                binding: 1,
                visibility: ShaderStage::Fragment,
                ty: BindingType::Sampler
            },
        ]
    );
}

#[test]
fn the_camera_binds_its_uniform() {
    assert_eq!(
        camera_bind_group_layout(),
        vec![BindGroupLayoutEntry {
            binding: 0,
            visibility: ShaderStage::Vertex,
            ty: BindingType::UniformBuffer
        }]
    );
}

#[test]
fn the_pipeline_has_its_fixed_state() {
    let pipeline = create_render_pipeline(PrimitiveTopology::TriangleList, TextureFormat { code: 4 });
    assert_eq!(
        pipeline.bind_group_layouts,
        vec![texture_bind_group_layout(), camera_bind_group_layout()]
    );
    assert_eq!(pipeline.buffers.len(), 2);
    assert_eq!(pipeline.buffers[0].array_stride, DraftModelVertex::desc().array_stride);
    assert_eq!(pipeline.buffers[0].step_mode, DraftModelVertex::desc().step_mode);
    assert_eq!(pipeline.buffers[0].attributes, DraftModelVertex::desc().attributes);
    assert_eq!(pipeline.buffers[1].array_stride, DraftInstanceRaw::desc().array_stride);
    assert_eq!(pipeline.buffers[1].step_mode, DraftInstanceRaw::desc().step_mode);
    assert_eq!(pipeline.buffers[1].attributes, DraftInstanceRaw::desc().attributes);
    assert_eq!(
        pipeline.primitive,
        PrimitiveState {
            topology: PrimitiveTopology::TriangleList,
            front_face: FrontFace::Ccw,
            cull_mode: Some(Face::Back),
            polygon_mode: PolygonMode::Fill,
            unclipped_depth: false,
            conservative: false,
        }
    );
    assert_eq!(
        pipeline.multisample,
        MultisampleState { count: 1, mask: !0, alpha_to_coverage_enabled: false }
    );
    assert_eq!(
        pipeline.target,
        ColorTargetState {
            format: TextureFormat { code: 4 },
            blend: BlendState::Replace,
            write_mask: ColorWrites::All
        }
    );
    assert_eq!(VERTEX_ENTRY_POINT, "vs_main");
    assert_eq!(FRAGMENT_ENTRY_POINT, "fs_main");
}

#[test]
fn no_shader_input_is_read_twice() {
    let pipeline = create_render_pipeline(PrimitiveTopology::PointList, TextureFormat { code: 0 });
    let mut locations: Vec<u32> = Vec::new();
    for buffer in &pipeline.buffers {
        for attribute in &buffer.attributes {
            assert!(!locations.contains(&attribute.shader_location));
            locations.push(attribute.shader_location);
        }
    }
    assert_eq!(locations, vec![0, 1, 2, 5, 6, 7, 8]);
    assert_eq!(pipeline.primitive.topology, PrimitiveTopology::PointList);
}

#[test]
fn the_pipeline_takes_the_format_of_the_surface() {
    let mut draft = Draft::new(DraftAppType::Desktop, Mat4::unit());
    assert!(draft.create_triangle_pipeline().is_none());
    assert!(draft.create_render_pipeline(PrimitiveTopology::LineList).is_none());
    let formats = vec![TextureFormat { code: 9 }, TextureFormat { code: 2 }];
    let alpha_modes = vec![CompositeAlphaMode { code: 0 }];
    draft.init(600, 400, &formats, &alpha_modes).expect("the surface can be set up");
    let pipeline = draft.create_triangle_pipeline().expect("the surface is set up");
    assert_eq!(pipeline.target.format, TextureFormat { code: 9 });
    assert_eq!(pipeline.primitive.topology, PrimitiveTopology::TriangleList);
    let lines = draft.create_render_pipeline(PrimitiveTopology::LineStrip).expect("set up");
    assert_eq!(lines.primitive.topology, PrimitiveTopology::LineStrip);
    assert_eq!(lines.primitive.cull_mode, Some(Face::Back));
}
