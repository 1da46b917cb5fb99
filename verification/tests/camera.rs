use draft_kernel::draft_camera::draft_camera_manager::DraftCameraManager;
use draft_kernel::draft_camera::draft_camera_orthographic::DraftCameraOrthographic;
use draft_kernel::draft_camera::draft_camera_perspective::DraftCameraPerspective;
use draft_kernel::draft_camera::draft_camera_projection::DraftCameraProjection;
use draft_kernel::draft_camera::draft_camera_uniform::DraftCameraUniform;
use draft_kernel::draft_camera::draft_camera_variant::DraftCameraType;
use draft_kernel::draft_camera::draft_camera_variant::DraftCameraVariant;
use draft_kernel::draft_camera::DraftCamera;
use draft_kernel::draft_camera::DraftCameraController;
use draft_kernel::draft_camera::DraftProjection;
use draft_kernel::draft_camera::FRAC_PI_2_BITS;
use draft_kernel::draft_camera::SAFE_FRAC_PI_2_BITS;
use draft_kernel::input::ElementState;
use draft_kernel::input::Key;
use draft_kernel::input::KeyCode;
use draft_kernel::input::NamedKey;
use draft_kernel::input::PhysicalKey;
use draft_kernel::linear::Mat4;
use draft_kernel::linear::Vec3;
use draft_kernel::linear::Vec4;
use draft_kernel::scalar::Scalar;

fn s(x: f32) -> Scalar {
    Scalar::from_bits(x.to_bits())
}

fn f(x: Scalar) -> f32 {
    f32::from_bits(x.to_bits())
}

fn v3(x: f32, y: f32, z: f32) -> Vec3 {
    Vec3::new(s(x), s(y), s(z))
}

fn mat(m: glam::Mat4) -> Mat4 {
    let c = m.to_cols_array_2d();
    let col = |i: usize| Vec4::new(s(c[i][0]), s(c[i][1]), s(c[i][2]), s(c[i][3]));
    Mat4::from_cols(col(0), col(1), col(2), col(3))
}

fn code(k: KeyCode) -> PhysicalKey {
    PhysicalKey::Code(k)
}

const SAFE: f32 = std::f32::consts::FRAC_PI_2 - 0.0001;

#[test]
fn safe_bound_is_a_quarter_turn_less_a_little() {
    assert_eq!(SAFE_FRAC_PI_2_BITS, SAFE.to_bits());
    assert_eq!(FRAC_PI_2_BITS, std::f32::consts::FRAC_PI_2.to_bits());
    assert!((SAFE as f64) < std::f64::consts::FRAC_PI_2);
}

#[test]
fn controller_starts_idle() {
    let c = DraftCameraController::new(s(4.0), s(0.4));
    assert_eq!(c.amount_left, s(0.0));
    assert_eq!(c.amount_right, s(0.0));
    assert_eq!(c.amount_forward, s(0.0));
    assert_eq!(c.amount_backward, s(0.0));
    assert_eq!(c.amount_up, s(0.0));
    assert_eq!(c.amount_down, s(0.0));
    assert_eq!(c.rotate_horizontal, s(0.0));
    assert_eq!(c.rotate_vertical, s(0.0));
    assert_eq!(c.scroll, s(0.0));
    assert_eq!(c.speed, s(4.0));
    assert_eq!(c.sensitivity, s(0.4));
}

#[test]
fn movement_keys_set_their_amounts() {
    let mut c = DraftCameraController::new(s(4.0), s(0.4));
    assert!(c.process_keyboard(&code(KeyCode::KeyW), &Key::Other, ElementState::Pressed));
    assert_eq!(c.amount_forward, s(1.0));
    assert!(c.process_keyboard(&code(KeyCode::ArrowUp), &Key::Other, ElementState::Released));
    assert_eq!(c.amount_forward, s(0.0));
    assert!(c.process_keyboard(&code(KeyCode::KeyA), &Key::Other, ElementState::Pressed));
    assert_eq!(c.amount_left, s(1.0));
    assert!(c.process_keyboard(&code(KeyCode::ArrowLeft), &Key::Other, ElementState::Released));
    assert_eq!(c.amount_left, s(0.0));
    assert!(c.process_keyboard(&code(KeyCode::KeyS), &Key::Other, ElementState::Pressed));
    assert_eq!(c.amount_backward, s(1.0));
    assert!(c.process_keyboard(&code(KeyCode::ArrowDown), &Key::Other, ElementState::Released));
    assert_eq!(c.amount_backward, s(0.0));
    assert!(c.process_keyboard(&code(KeyCode::KeyD), &Key::Other, ElementState::Pressed));
    assert_eq!(c.amount_right, s(1.0));
    assert!(c.process_keyboard(&code(KeyCode::ArrowRight), &Key::Other, ElementState::Released));
    assert_eq!(c.amount_right, s(0.0));
    assert!(c.process_keyboard(&code(KeyCode::ShiftLeft), &Key::Other, ElementState::Pressed));
    assert_eq!(c.amount_down, s(1.0));
    assert_eq!(c.amount_up, s(0.0));
}

#[test]
fn space_pushes_up_whatever_the_physical_key() {
    let mut c = DraftCameraController::new(s(4.0), s(0.4));
    let space = Key::Named(NamedKey::Space);
    assert!(c.process_keyboard(&code(KeyCode::KeyW), &space, ElementState::Pressed));
    assert_eq!(c.amount_up, s(1.0));
    assert_eq!(c.amount_forward, s(0.0));
    assert!(c.process_keyboard(&PhysicalKey::Unidentified, &space, ElementState::Released));
    assert_eq!(c.amount_up, s(0.0));
}

#[test]
fn other_keys_are_not_handled() {
    let mut c = DraftCameraController::new(s(4.0), s(0.4));
    let before = c;
    assert!(!c.process_keyboard(&code(KeyCode::Enter), &Key::Other, ElementState::Pressed));
    assert!(!c.process_keyboard(&code(KeyCode::Digit2), &Key::Other, ElementState::Pressed));
    assert!(!c.process_keyboard(&code(KeyCode::Other), &Key::Named(NamedKey::Other), ElementState::Pressed));
    assert!(!c.process_keyboard(&PhysicalKey::Unidentified, &Key::Other, ElementState::Released));
    assert_eq!(c, before);
}

#[test]
fn scroll_turns_the_sign_round() {
    let mut c = DraftCameraController::new(s(4.0), s(0.4));
    c.process_scroll(s(100.0));
    assert_eq!(f(c.scroll), -100.0);
    c.process_scroll(s(-3.5));
    assert_eq!(f(c.scroll), 3.5);
}

#[test]
fn pointer_sets_both_rotations() {
    let mut c = DraftCameraController::new(s(4.0), s(0.4));
    c.process_mouse(s(2.0), s(-1.0));
    assert_eq!(c.rotate_horizontal, s(2.0));
    assert_eq!(c.rotate_vertical, s(-1.0));
}

#[test]
fn update_takes_the_move_and_uses_up_what_was_pending() {
    let mut c = DraftCameraController::new(s(4.0), s(0.4));
    c.process_keyboard(&code(KeyCode::KeyW), &Key::Other, ElementState::Pressed);
    c.process_scroll(s(1.0));
    c.process_mouse(s(2.0), s(3.0));
    let mut camera = DraftCamera::new(v3(0.0, 0.0, 10.0), s(-1.5), s(0.0));
    c.update_camera(&mut camera, DraftCamera::new(v3(1.0, 2.0, 3.0), s(0.5), s(0.25)));
    assert_eq!(camera.position, v3(1.0, 2.0, 3.0));
    assert_eq!(camera.yaw, s(0.5));
    assert_eq!(camera.pitch, s(0.25));
    assert_eq!(c.scroll, s(0.0));
    assert_eq!(c.rotate_horizontal, s(0.0));
    assert_eq!(c.rotate_vertical, s(0.0));
    assert_eq!(c.amount_forward, s(1.0));
    assert_eq!(c.speed, s(4.0));
    assert_eq!(c.sensitivity, s(0.4));
}

#[test]
fn update_clamps_the_pitch() {
    let mut c = DraftCameraController::new(s(4.0), s(0.4));
    let mut camera = DraftCamera::new(v3(0.0, 0.0, 0.0), s(0.0), s(0.0));
    c.update_camera(&mut camera, DraftCamera::new(v3(0.0, 0.0, 0.0), s(0.0), s(2.0)));
    assert_eq!(camera.pitch.to_bits(), SAFE.to_bits());
    c.update_camera(&mut camera, DraftCamera::new(v3(0.0, 0.0, 0.0), s(0.0), s(-2.0)));
    assert_eq!(camera.pitch.to_bits(), (-SAFE).to_bits());
    c.update_camera(
        &mut camera,
        DraftCamera::new(v3(0.0, 0.0, 0.0), s(0.0), s(std::f32::consts::FRAC_PI_2)),
    );
    assert_eq!(camera.pitch.to_bits(), SAFE.to_bits());
    c.update_camera(&mut camera, DraftCamera::new(v3(0.0, 0.0, 0.0), s(0.0), s(SAFE)));
    assert_eq!(camera.pitch.to_bits(), SAFE.to_bits());
    c.update_camera(&mut camera, DraftCamera::new(v3(0.0, 0.0, 0.0), s(0.0), s(-1.0)));
    assert_eq!(f(camera.pitch), -1.0);
}

#[test]
fn pitch_stays_inside_the_quarter_turns() {
    let mut p = DraftCameraPerspective::new(v3(0.0, 0.0, 10.0), s(-1.5707964), s(0.0));
    let mut pitch = 0.0f32;
    for step in 0..200 {
        pitch += if step % 7 == 0 { -0.9 } else { 0.35 };
        assert!(p.update_camera(DraftCamera::new(v3(0.0, 0.0, 10.0), s(0.0), s(pitch))));
        let kept = f(p.camera.pitch);
        assert!(kept.abs() <= SAFE);
        assert!((kept.abs() as f64) < std::f64::consts::FRAC_PI_2);
        pitch = kept;
    }
    p.update_camera(DraftCamera::new(v3(0.0, 0.0, 10.0), s(0.0), s(f32::INFINITY)));
    assert_eq!(f(p.camera.pitch), SAFE);
    p.update_camera(DraftCamera::new(v3(0.0, 0.0, 10.0), s(0.0), s(f32::NEG_INFINITY)));
    assert_eq!(f(p.camera.pitch), -SAFE);
}

#[test]
fn a_pitch_that_is_no_number_passes_through() {
    let mut p = DraftCameraPerspective::new(v3(0.0, 0.0, 10.0), s(0.0), s(0.0));
    p.update_camera(DraftCamera::new(v3(0.0, 0.0, 10.0), s(0.0), s(f32::NAN)));
    assert!(f(p.camera.pitch).is_nan());
}

#[test]
fn projection_keeps_the_size() {
    let mut p = DraftCameraProjection::new(800, 600, s(45.0), s(0.1), s(100.0));
    assert_eq!(p.width, 800);
    assert_eq!(p.height, 600);
    assert_eq!(p.fov_y, s(45.0));
    assert_eq!(p.z_near, s(0.1));
    assert_eq!(p.z_far, s(100.0));
    p.resize(1920, 1080);
    assert_eq!(p.width, 1920);
    assert_eq!(p.height, 1080);
    assert_eq!(p.fov_y, s(45.0));
    assert_eq!(p.width as f32 / p.height as f32, 1920.0f32 / 1080.0f32);
    let q: DraftProjection = DraftProjection::new(4, 3, s(45.0), s(0.1), s(100.0));
    assert_eq!(q.width as f32 / q.height as f32, 4.0f32 / 3.0f32);
}

#[test]
fn orthographic_camera_hears_nothing() {
    let ortho = DraftCameraOrthographic::new(v3(0.0, 0.0, 10.0), v3(0.0, 0.0, 0.0));
    assert_eq!(ortho.position(), v3(0.0, 0.0, 10.0));
    assert_eq!(ortho.camera_type(), DraftCameraType::Orthographic);
    assert_eq!(ortho.projection, DraftCameraProjection::new(800, 600, s(45.0), s(0.1), s(100.0)));
    let mut variant = DraftCameraVariant::Orthographic(ortho);
    let before = variant;
    assert!(!variant.process_keyboard(&code(KeyCode::KeyW), &Key::Other, ElementState::Pressed));
    assert!(!variant.process_scroll(s(1.0)));
    assert!(!variant.update_camera(DraftCamera::new(v3(5.0, 5.0, 5.0), s(1.0), s(1.0))));
    assert_eq!(variant, before);
    assert_eq!(variant.camera_type(), DraftCameraType::Orthographic);
    assert_eq!(variant.position(), v3(0.0, 0.0, 10.0));
}

#[test]
fn perspective_camera_listens() {
    let p = DraftCameraPerspective::new(v3(0.0, 0.0, 10.0), s(-1.5707964), s(0.0));
    assert_eq!(p.position(), v3(0.0, 0.0, 10.0));
    assert_eq!(p.camera_type(), DraftCameraType::Perspective);
    assert_eq!(p.controller, DraftCameraController::new(s(4.0), s(0.4)));
    assert_eq!(p.projection, DraftCameraProjection::new(800, 600, s(45.0), s(0.1), s(100.0)));
    let mut variant = DraftCameraVariant::Perspective(p);
    assert!(variant.process_keyboard(&code(KeyCode::KeyD), &Key::Other, ElementState::Pressed));
    assert!(!variant.process_keyboard(&code(KeyCode::Enter), &Key::Other, ElementState::Pressed));
    assert!(variant.process_scroll(s(2.0)));
    match variant {
        DraftCameraVariant::Perspective(c) => {
            assert_eq!(c.controller.amount_right, s(1.0));
            assert_eq!(c.controller.scroll, s(-2.0));
        }
        DraftCameraVariant::Orthographic(_) => panic!("the kind changed"),
    }
    assert!(variant.update_camera(DraftCamera::new(v3(1.0, 0.0, 9.0), s(0.0), s(3.0))));
    assert_eq!(variant.position(), v3(1.0, 0.0, 9.0));
    match variant {
        DraftCameraVariant::Perspective(c) => {
            assert_eq!(f(c.camera.pitch), SAFE);
            assert_eq!(c.controller.scroll, s(0.0));
            assert_eq!(c.controller.amount_right, s(1.0));
        }
        DraftCameraVariant::Orthographic(_) => panic!("the kind changed"),
    }
}

#[test]
fn manager_starts_with_two_cameras() {
    let m = DraftCameraManager::new();
    assert_eq!(m.len(), 2);
    assert_eq!(m.active_camera_index(), 0);
    assert_eq!(
        m.camera(0),
        Some(DraftCameraVariant::Orthographic(DraftCameraOrthographic::new(
            v3(0.0, 0.0, 10.0),
            v3(0.0, 0.0, 0.0)
        )))
    );
    assert_eq!(
        m.camera(1),
        Some(DraftCameraVariant::Perspective(DraftCameraPerspective::new(
            v3(0.0, 0.0, 10.0),
            s(-std::f32::consts::FRAC_PI_2),
            s(0.0)
        )))
    );
    assert_eq!(m.camera(2), None);
}

#[test]
fn manager_needs_a_camera() {
    assert!(DraftCameraManager::with_cameras(Vec::new()).is_none());
    let one = vec![DraftCameraVariant::Perspective(DraftCameraPerspective::new(
        v3(1.0, 2.0, 3.0),
        s(0.0),
        s(0.0),
    ))];
    let m = DraftCameraManager::with_cameras(one.clone()).expect("one camera is enough");
    assert_eq!(m.len(), 1);
    assert_eq!(m.active_camera_index(), 0);
    assert_eq!(m.camera(0), Some(one[0]));
}

#[test]
fn selecting_a_camera_out_of_range_changes_nothing() {
    let mut m = DraftCameraManager::new();
    m.set_active_camera(2);
    assert_eq!(m.active_camera_index(), 0);
    m.set_active_camera(usize::MAX);
    assert_eq!(m.active_camera_index(), 0);
    m.set_active_camera(1);
    assert_eq!(m.active_camera_index(), 1);
    m.set_active_camera(5);
    assert_eq!(m.active_camera_index(), 1);
    m.set_active_camera(0);
    assert_eq!(m.active_camera_index(), 0);
}

#[test]
fn switching_cameras_keeps_their_state() {
    let mut m = DraftCameraManager::new();
    m.set_active_camera(1);
    m.process_keyboard(&code(KeyCode::KeyW), &Key::Other, ElementState::Pressed);
    m.update_camera(DraftCamera::new(v3(3.0, 1.0, 4.0), s(0.7), s(-0.2)));
    let moved = m.camera(1);
    let fixed = m.camera(0);
    m.set_active_camera(0);
    assert_eq!(m.camera(1), moved);
    assert_eq!(m.camera(0), fixed);
    m.set_active_camera(1);
    assert_eq!(m.camera(1), moved);
    assert_eq!(m.active_camera().position(), v3(3.0, 1.0, 4.0));
}

#[test]
fn resize_reaches_every_camera() {
    let mut m = DraftCameraManager::new();
    m.resize_camera(1024, 768);
    for i in 0..m.len() {
        let p = m.camera(i).expect("in range").get_projection();
        assert_eq!((p.width, p.height), (1024, 768));
        assert_eq!(p.fov_y, s(45.0));
    }
    assert_eq!(m.active_camera_index(), 0);
}

#[test]
fn select_perspective_then_resize() {
    let mut m = DraftCameraManager::new();
    assert_eq!(m.active_camera().camera_type(), DraftCameraType::Orthographic);
    m.process_keyboard(&code(KeyCode::Digit3), &Key::Other, ElementState::Pressed);
    m.resize_camera(1920, 1080);
    for i in 0..2 {
        let p = m.camera(i).expect("in range").get_projection();
        assert_eq!(p.width as f32 / p.height as f32, 1920.0f32 / 1080.0f32);
    }
    assert_eq!(m.active_camera_index(), 1);
    assert_eq!(m.active_camera().camera_type(), DraftCameraType::Perspective);
    assert!(m.active_camera().process_scroll(s(1.0)));
    match m.camera(1) {
        Some(DraftCameraVariant::Perspective(c)) => assert_eq!(c.controller.scroll, s(-1.0)),
        _ => panic!("the second camera is the perspective one"),
    }
    assert_eq!(m.active_camera().camera_type(), DraftCameraType::Perspective);
}

#[test]
fn digit_keys_select_cameras() {
    let mut m = DraftCameraManager::new();
    assert!(!m.process_keyboard(&code(KeyCode::Numpad3), &Key::Other, ElementState::Pressed));
    assert_eq!(m.active_camera_index(), 1);
    assert!(!m.process_keyboard(&code(KeyCode::Numpad2), &Key::Other, ElementState::Released));
    assert_eq!(m.active_camera_index(), 0);
    assert!(!m.process_keyboard(&code(KeyCode::Digit3), &Key::Other, ElementState::Pressed));
    assert_eq!(m.active_camera_index(), 1);
    assert!(!m.process_keyboard(&code(KeyCode::Digit2), &Key::Other, ElementState::Pressed));
    assert_eq!(m.active_camera_index(), 0);
    let mut single = DraftCameraManager::with_cameras(vec![DraftCameraVariant::Orthographic(
        DraftCameraOrthographic::new(v3(0.0, 0.0, 1.0), v3(0.0, 0.0, 0.0)),
    )])
    .expect("one camera");
    single.process_keyboard(&code(KeyCode::Digit3), &Key::Other, ElementState::Pressed);
    assert_eq!(single.active_camera_index(), 0);
}

#[test]
fn keys_reach_only_the_camera_in_use() {
    let mut m = DraftCameraManager::new();
    let before = m.camera(1);
    assert!(!m.process_keyboard(&code(KeyCode::KeyW), &Key::Other, ElementState::Pressed));
    assert!(!m.process_scroll(s(1.0)));
    assert!(!m.update_camera(DraftCamera::new(v3(9.0, 9.0, 9.0), s(0.0), s(0.0))));
    assert_eq!(m.camera(1), before);
    m.set_active_camera(1);
    let fixed = m.camera(0);
    assert!(m.process_keyboard(&code(KeyCode::KeyW), &Key::Other, ElementState::Pressed));
    assert!(m.process_scroll(s(1.0)));
    assert!(m.update_camera(DraftCamera::new(v3(9.0, 9.0, 9.0), s(0.0), s(0.0))));
    assert_eq!(m.camera(0), fixed);
    assert_ne!(m.camera(1), before);
}

#[test]
fn uniform_starts_in_front_of_the_origin() {
    let u = DraftCameraUniform::new();
    assert_eq!(u.view_position, Vec4::new(s(0.0), s(0.0), s(10.0), s(1.0)));
    assert_eq!(u.view_proj, Mat4::unit());
    assert_eq!(u.view_proj, mat(glam::Mat4::IDENTITY));
}

#[test]
fn uniform_holds_projection_times_view() {
    let mut m = DraftCameraManager::new();
    let mut u = DraftCameraUniform::new();
    let projection = glam::Mat4::perspective_rh(45.0f32.to_radians(), 800.0 / 600.0, 0.1, 100.0);
    let view = glam::Mat4::look_at_rh(
        glam::Vec3::new(0.0, 0.0, 10.0),
        glam::Vec3::ZERO,
        glam::Vec3::Y,
    );
    let product = projection * view;
    m.update_view_proj(&mut u, mat(product));
    assert_eq!(u.view_position, Vec4::new(s(0.0), s(0.0), s(10.0), s(1.0)));
    let cols = product.to_cols_array_2d();
    let got = [u.view_proj.x_axis, u.view_proj.y_axis, u.view_proj.z_axis, u.view_proj.w_axis];
    for i in 0..4 {
        assert_eq!(f(got[i].x).to_bits(), cols[i][0].to_bits());
        assert_eq!(f(got[i].y).to_bits(), cols[i][1].to_bits());
        assert_eq!(f(got[i].z).to_bits(), cols[i][2].to_bits());
        assert_eq!(f(got[i].w).to_bits(), cols[i][3].to_bits());
    }
    let mut numbers: Vec<f32> = vec![0.0, 0.0, 10.0, 1.0];
    numbers.extend_from_slice(&product.to_cols_array());
    let expected: &[u8] = bytemuck::cast_slice(&numbers);
    let bytes = u.to_bytes();
    assert_eq!(bytes.len(), 80);
    assert_eq!(bytes.as_slice(), expected);
}

#[test]
fn uniform_follows_the_camera_in_use() {
    let mut m = DraftCameraManager::new();
    m.set_active_camera(1);
    m.update_camera(DraftCamera::new(v3(1.0, 2.0, 3.0), s(0.0), s(0.0)));
    let mut u = DraftCameraUniform::new();
    m.update_view_proj(&mut u, Mat4::unit());
    assert_eq!(u.view_position, Vec4::new(s(1.0), s(2.0), s(3.0), s(1.0)));
    u.update_view_proj(v3(-1.0, 0.5, 0.0), mat(glam::Mat4::from_scale(glam::Vec3::splat(2.0))));
    assert_eq!(u.view_position, Vec4::new(s(-1.0), s(0.5), s(0.0), s(1.0)));
    assert_eq!(u.view_proj.x_axis, Vec4::new(s(2.0), s(0.0), s(0.0), s(0.0)));
}
