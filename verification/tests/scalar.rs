use terrain_procgen::scalar::{Scalar, Vec3, ONE_BITS, ZERO_BITS};

fn scalar_samples() -> Vec<f32> {
    vec![
        0.0,
        -0.0,
        1.0,
        -1.0,
        0.1,
        10.0,
        -2.5,
        3.0e-45,
        -3.0e-45,
        1.0e-40,
        f32::MIN_POSITIVE,
        f32::MAX,
        f32::MIN,
        f32::EPSILON,
        f32::INFINITY,
        f32::NEG_INFINITY,
        f32::NAN,
        -f32::NAN,
        123456.78,
        -0.333,
    ]
}

fn scalar_of(x: f32) -> Scalar {
    Scalar::from_bits(x.to_bits())
}

#[test]
fn less_than_agrees_with_the_numbers() {
    for a in scalar_samples() {
        for b in scalar_samples() {
            assert_eq!(scalar_of(a).lt(scalar_of(b)), a < b, "{} < {}", a, b);
        }
    }
}

#[test]
fn same_agrees_with_the_numbers() {
    for a in scalar_samples() {
        for b in scalar_samples() {
            assert_eq!(scalar_of(a).same(scalar_of(b)), a == b, "{} == {}", a, b);
            assert_eq!(scalar_of(a) == scalar_of(b), a == b, "{} == {}", a, b);
        }
    }
}

#[test]
fn classes_agree_with_the_numbers() {
    for a in scalar_samples() {
        assert_eq!(scalar_of(a).is_nan(), a.is_nan(), "{}", a);
        assert_eq!(scalar_of(a).is_finite(), a.is_finite(), "{}", a);
    }
}

#[test]
fn bits_round_trip() {
    for a in scalar_samples() {
        assert_eq!(scalar_of(a).to_bits(), a.to_bits());
        assert_eq!(scalar_of(a).bits, a.to_bits());
    }
    assert_eq!(ZERO_BITS, 0.0f32.to_bits());
    assert_eq!(ONE_BITS, 1.0f32.to_bits());
}

#[test]
fn rank_is_the_signed_magnitude() {
    assert_eq!(scalar_of(0.0).rank(), 0);
    assert_eq!(scalar_of(-0.0).rank(), 0);
    assert_eq!(scalar_of(1.0).rank(), 0x3F80_0000);
    assert_eq!(scalar_of(-1.0).rank(), -0x3F80_0000);
    assert_eq!(scalar_of(-1.0).magnitude(), 0x3F80_0000);
    assert_eq!(scalar_of(f32::INFINITY).magnitude(), 0x7F80_0000);
}

#[test]
fn the_two_zeros_are_the_same_and_nan_is_not_itself() {
    assert!(scalar_of(0.0).same(scalar_of(-0.0)));
    assert!(!scalar_of(f32::NAN).same(scalar_of(f32::NAN)));
    assert!(!scalar_of(0.0).lt(scalar_of(-0.0)));
    assert!(!scalar_of(-0.0).lt(scalar_of(0.0)));
}

#[test]
fn positions_compare_component_by_component() {
    let a = Vec3::from_bits(1.0f32.to_bits(), 0.0f32.to_bits(), 2.0f32.to_bits());
    let b = Vec3::new(scalar_of(1.0), scalar_of(-0.0), scalar_of(2.0));
    let c = Vec3::new(scalar_of(1.0), scalar_of(0.5), scalar_of(2.0));
    let n = Vec3::new(scalar_of(1.0), scalar_of(f32::NAN), scalar_of(2.0));
    assert!(a.same(b));
    assert!(a == b);
    assert!(!a.same(c));
    assert!(a != c);
    assert!(!n.same(n));
    assert!(n != n);
}
