use draft_kernel::draft_instance::DraftInstance;
use draft_kernel::draft_instance::DraftInstanceRaw;
use draft_kernel::draft_instance::RAW_INSTANCE_SIZE;
use draft_kernel::draft_vertex::DraftModelVertex;
use draft_kernel::draft_vertex::VertexAttribute;
use draft_kernel::draft_vertex::VertexFormat;
use draft_kernel::draft_vertex::VertexStepMode;
use draft_kernel::draft_vertex::MODEL_VERTEX_SIZE;
use draft_kernel::linear::Mat4;
use draft_kernel::linear::Quat;
use draft_kernel::linear::Vec3;
use draft_kernel::linear::Vec4;
use draft_kernel::scalar::Scalar;

fn s(x: f32) -> Scalar {
    Scalar::from_bits(x.to_bits())
}

#[test]
fn instance_layout_has_four_rows() {
    let layout = DraftInstanceRaw::desc();
    assert_eq!(layout.array_stride, 64);
    assert_eq!(layout.array_stride, RAW_INSTANCE_SIZE);
    assert_eq!(layout.step_mode, VertexStepMode::Instance);
    assert_eq!(
        layout.attributes,
        vec![
            VertexAttribute { format: VertexFormat::Float32x4, offset: 0, shader_location: 5 },
            VertexAttribute { format: VertexFormat::Float32x4, offset: 16, shader_location: 6 },
            VertexAttribute { format: VertexFormat::Float32x4, offset: 32, shader_location: 7 },
            VertexAttribute { format: VertexFormat::Float32x4, offset: 48, shader_location: 8 },
        ]
    );
}

#[test]
fn model_vertex_layout_has_position_texture_normal() {
    let layout = DraftModelVertex::desc();
    assert_eq!(layout.array_stride, 32);
    assert_eq!(layout.array_stride, MODEL_VERTEX_SIZE);
    assert_eq!(layout.step_mode, VertexStepMode::Vertex);
    assert_eq!(
        layout.attributes,
        vec![
            VertexAttribute { format: VertexFormat::Float32x3, offset: 0, shader_location: 0 },
            VertexAttribute { format: VertexFormat::Float32x2, offset: 12, shader_location: 1 },
            VertexAttribute { format: VertexFormat::Float32x3, offset: 20, shader_location: 2 },
        ]
    );
}

#[test]
fn layouts_are_gap_free() {
    for layout in [DraftInstanceRaw::desc(), DraftModelVertex::desc()] {
        let mut offset = 0u64;
        for a in &layout.attributes {
            assert_eq!(a.offset, offset);
            offset += a.format.size();
        }
        assert_eq!(offset, layout.array_stride);
    }
}

#[test]
fn formats_have_their_sizes() {
    assert_eq!(VertexFormat::Float32x2.size(), 8);
    assert_eq!(VertexFormat::Float32x3.size(), 12);
    assert_eq!(VertexFormat::Float32x4.size(), 16);
}

#[test]
fn placed_instance_defaults_to_origin() {
    let i = DraftInstance::place(None);
    assert_eq!(i.position, Vec3::new(s(0.0), s(0.0), s(0.0)));
    assert_eq!(i.rotation, Quat::new(s(0.0), s(0.0), s(0.0), s(1.0)));
    let p = Vec3::new(s(1.0), s(-2.0), s(3.5));
    let j = DraftInstance::place(Some(p));
    assert_eq!(j.position, p);
    assert_eq!(j.rotation, Quat::no_rotation());
    assert_eq!(DraftInstance::new(p, Quat::no_rotation()), j);
}

#[test]
fn packed_instances_are_sixty_four_bytes_each() {
    let translation = Mat4::from_cols(
        Vec4::new(s(1.0), s(0.0), s(0.0), s(0.0)),
        Vec4::new(s(0.0), s(1.0), s(0.0), s(0.0)),
        Vec4::new(s(0.0), s(0.0), s(1.0), s(0.0)),
        Vec4::new(s(2.0), s(3.0), s(4.0), s(1.0)),
    );
    let raws = vec![DraftInstanceRaw::new(Mat4::unit()), DraftInstanceRaw::new(translation)];
    let bytes = DraftInstanceRaw::pack(&raws);
    assert_eq!(bytes.len(), 128);
    let numbers: [f32; 32] = [
        1.0, 0.0, 0.0, 0.0, 0.0, 1.0, 0.0, 0.0, 0.0, 0.0, 1.0, 0.0, 0.0, 0.0, 0.0, 1.0, 1.0, 0.0,
        0.0, 0.0, 0.0, 1.0, 0.0, 0.0, 0.0, 0.0, 1.0, 0.0, 2.0, 3.0, 4.0, 1.0,
    ];
    let mut expected: Vec<u8> = Vec::new();
    for n in numbers {
        expected.extend_from_slice(&n.to_ne_bytes());
    }
    assert_eq!(bytes, expected);
    assert_eq!(DraftInstanceRaw::pack(&Vec::new()), Vec::<u8>::new());
}
