use pathtracer::scalar::{clamp, Scalar};

fn s(x: f32) -> Scalar {
    Scalar::from_bits(x.to_bits())
}

fn samples() -> Vec<f32> {
    vec![
        0.0,
        -0.0,
        1.0,
        -1.0,
        0.001,
        -0.001,
        0.5,
        2.0,
        255.99,
        1.0e-40,
        -1.0e-40,
        f32::MIN_POSITIVE,
        f32::MAX,
        f32::MIN,
        f32::INFINITY,
        f32::NEG_INFINITY,
        f32::NAN,
        -f32::NAN,
        f32::EPSILON,
        3.1415927,
    ]
}

#[test]
fn order_agrees_with_the_numbers() {
    for a in samples() {
        for b in samples() {
            assert_eq!(s(a).lt(s(b)), a < b, "{} < {}", a, b);
            assert_eq!(s(a).le(s(b)), a <= b, "{} <= {}", a, b);
            assert_eq!(s(a).gt(s(b)), a > b, "{} > {}", a, b);
            assert_eq!(s(a).ge(s(b)), a >= b, "{} >= {}", a, b);
            assert_eq!(s(a).numerically_eq(s(b)), a == b, "{} == {}", a, b);
        }
    }
}

#[test]
fn is_nan_agrees_with_the_numbers() {
    for a in samples() {
        assert_eq!(s(a).is_nan(), a.is_nan());
    }
}

#[test]
fn bits_round_trip() {
    for a in samples() {
        assert_eq!(s(a).to_bits(), a.to_bits());
    }
    assert_eq!(Scalar::zero().to_bits(), 0.0f32.to_bits());
    assert_eq!(Scalar::one().to_bits(), 1.0f32.to_bits());
    assert_eq!(Scalar::max_value().to_bits(), f32::MAX.to_bits());
}

#[test]
fn order_key_orders_the_zeros_together() {
    assert_eq!(s(0.0).order_key(), 0);
    assert_eq!(s(-0.0).order_key(), 0);
    assert_eq!(s(1.0).order_key(), 0x3f80_0000);
    assert_eq!(s(-1.0).order_key(), -0x3f80_0000);
}

#[test]
fn clamp_brings_a_number_into_the_interval() {
    assert_eq!(clamp(s(2.0), s(0.0), s(1.0)), s(1.0));
    assert_eq!(clamp(s(-3.0), s(0.0), s(1.0)), s(0.0));
    assert_eq!(clamp(s(0.25), s(0.0), s(1.0)), s(0.25));
    assert_eq!(clamp(s(0.0), s(0.0), s(1.0)), s(0.0));
    assert_eq!(clamp(s(1.0), s(0.0), s(1.0)), s(1.0));
    assert_eq!(clamp(s(f32::INFINITY), s(0.0), s(1.0)), s(1.0));
    assert_eq!(clamp(s(f32::NEG_INFINITY), s(0.0), s(1.0)), s(0.0));
}

#[test]
fn clamp_hands_a_nan_back() {
    let r = clamp(s(f32::NAN), s(0.0), s(1.0));
    assert!(r.is_nan());
    assert_eq!(r, s(f32::NAN));
}

#[test]
fn clamp_keeps_the_sign_of_a_zero_within_the_interval() {
    assert_eq!(clamp(s(-0.0), s(0.0), s(1.0)).to_bits(), (-0.0f32).to_bits());
}

#[test]
fn clamp_agrees_with_the_comparisons() {
    for x in samples() {
        let expected = if x < 0.0 {
            0.0
        } else if x > 1.0 {
            1.0
        } else {
            x
        };
        assert_eq!(clamp(s(x), s(0.0), s(1.0)).to_bits(), expected.to_bits());
    }
}
