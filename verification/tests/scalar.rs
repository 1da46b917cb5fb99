use draft_kernel::bytes::words_to_bytes;
use draft_kernel::linear::Mat4;
use draft_kernel::linear::Quat;
use draft_kernel::linear::Vec3;
use draft_kernel::linear::Vec4;
use draft_kernel::scalar::Scalar;

fn s(x: f32) -> Scalar {
    Scalar::from_bits(x.to_bits())
}

fn samples() -> Vec<f32> {
    vec![
        0.0,
        -0.0,
        1.0,
        -1.0,
        0.1,
        -0.1,
        1.5706964,
        -1.5706964,
        1.5707964,
        3.0e38,
        -3.0e38,
        1.0e-45,
        -1.0e-45,
        f32::INFINITY,
        f32::NEG_INFINITY,
        f32::NAN,
        -f32::NAN,
        f32::MAX,
        f32::MIN,
        f32::MIN_POSITIVE,
    ]
}

#[test]
fn bits_are_kept() {
    assert_eq!(Scalar::from_bits(0x3F80_0000).to_bits(), 0x3F80_0000);
    assert_eq!(Scalar::zero().to_bits(), 0.0f32.to_bits());
    assert_eq!(Scalar::one().to_bits(), 1.0f32.to_bits());
}

#[test]
fn less_than_agrees_with_the_machine() {
    for a in samples() {
        for b in samples() {
            assert_eq!(s(a).lt(s(b)), a < b, "{} < {}", a, b);
        }
    }
}

#[test]
fn not_a_number_is_recognised() {
    for a in samples() {
        assert_eq!(s(a).is_nan(), a.is_nan(), "{}", a);
    }
    assert!(Scalar::from_bits(0x7FC0_0000).is_nan());
    assert!(Scalar::from_bits(0xFF80_0001).is_nan());
    assert!(!Scalar::from_bits(0x7F80_0000).is_nan());
    assert!(!Scalar::from_bits(0xFF80_0000).is_nan());
}

#[test]
fn negation_agrees_with_the_machine() {
    for a in samples() {
        assert_eq!(s(a).neg().to_bits(), (-a).to_bits(), "{}", a);
    }
    assert_eq!(s(1.0).neg().to_bits(), 0xBF80_0000);
}

#[test]
fn clamp_pulls_into_the_range() {
    let bound = s(1.5);
    assert_eq!(s(2.0).clamp_symmetric(bound), s(1.5));
    assert_eq!(s(-2.0).clamp_symmetric(bound), s(-1.5));
    assert_eq!(s(0.25).clamp_symmetric(bound), s(0.25));
    assert_eq!(s(1.5).clamp_symmetric(bound), s(1.5));
    assert_eq!(s(-1.5).clamp_symmetric(bound), s(-1.5));
    assert_eq!(s(f32::INFINITY).clamp_symmetric(bound), s(1.5));
    assert_eq!(s(f32::NEG_INFINITY).clamp_symmetric(bound), s(-1.5));
    assert_eq!(s(-0.0).clamp_symmetric(bound).to_bits(), (-0.0f32).to_bits());
}

#[test]
fn clamp_agrees_with_the_machine() {
    let limit = 1.5706964f32;
    for a in samples() {
        let expected = if a < -limit {
            -limit
        } else if a > limit {
            limit
        } else {
            a
        };
        assert_eq!(s(a).clamp_symmetric(s(limit)).to_bits(), expected.to_bits(), "{}", a);
    }
}

#[test]
fn clamp_leaves_what_is_not_a_number() {
    let nan = s(f32::NAN);
    assert_eq!(nan.clamp_symmetric(s(1.0)), nan);
}

#[test]
fn vectors_keep_their_parts() {
    let v = Vec3::new(s(1.0), s(2.0), s(3.0));
    assert_eq!(v.x, s(1.0));
    assert_eq!(v.y, s(2.0));
    assert_eq!(v.z, s(3.0));
    assert_eq!(v.extend(s(1.0)), Vec4::new(s(1.0), s(2.0), s(3.0), s(1.0)));
    assert_eq!(Vec3::zero(), Vec3::new(s(0.0), s(0.0), s(0.0)));
    assert_eq!(Quat::no_rotation(), Quat::new(s(0.0), s(0.0), s(0.0), s(1.0)));
}

#[test]
fn unit_matrix_is_the_identity() {
    let m = Mat4::unit();
    let expected = Mat4::from_cols(
        Vec4::new(s(1.0), s(0.0), s(0.0), s(0.0)),
        Vec4::new(s(0.0), s(1.0), s(0.0), s(0.0)),
        Vec4::new(s(0.0), s(0.0), s(1.0), s(0.0)),
        Vec4::new(s(0.0), s(0.0), s(0.0), s(1.0)),
    );
    assert_eq!(m, expected);
}

#[test]
fn words_become_bytes_in_memory_order() {
    let words: Vec<u32> = vec![0x0102_0304, 0xAABB_CCDD, 0, 0x3F80_0000];
    let bytes = words_to_bytes(&words);
    let mut expected: Vec<u8> = Vec::new();
    for w in &words {
        expected.extend_from_slice(&w.to_ne_bytes());
    }
    assert_eq!(bytes, expected);
    assert_eq!(bytes.len(), 16);
}

#[test]
fn no_words_become_no_bytes() {
    let words: Vec<u32> = Vec::new();
    assert_eq!(words_to_bytes(&words), Vec::<u8>::new());
}
