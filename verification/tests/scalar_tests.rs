use fmc_noise::scalar::Scalar;

fn value(v: f32) -> Scalar {
    Scalar::from_bits(v.to_bits())
}

fn number(s: Scalar) -> f32 {
    f32::from_bits(s.to_bits())
}

#[test]
fn bits_round_trip() {
    assert_eq!(Scalar::from_bits(0x3f80_0000).to_bits(), 0x3f80_0000);
    assert_eq!(number(Scalar::one()), 1.0);
    assert_eq!(number(Scalar::half()), 0.5);
    assert_eq!(number(Scalar::zero()), 0.0);
    assert_eq!(number(Scalar::largest()), f32::MAX);
    assert_eq!(number(Scalar::smallest()), f32::MIN);
}

#[test]
fn abs_clears_the_sign() {
    assert_eq!(value(-1.5).abs(), value(1.5));
    assert_eq!(value(2.0).abs(), value(2.0));
    assert_eq!(value(-0.0).abs(), value(0.0));
    assert_eq!(value(f32::NEG_INFINITY).abs(), value(f32::INFINITY));
    assert!(value(-f32::NAN).abs().is_nan());
}

#[test]
fn nan_is_recognised() {
    assert!(value(f32::NAN).is_nan());
    assert!(!value(f32::INFINITY).is_nan());
    assert!(!value(f32::NEG_INFINITY).is_nan());
    assert!(!value(0.0).is_nan());
    assert!(Scalar::from_bits(0x7f80_0001).is_nan());
    assert!(Scalar::from_bits(0xffff_ffff).is_nan());
}

#[test]
fn order_agrees_with_the_hardware() {
    let samples = [
        0.0f32,
        -0.0,
        1.0,
        -1.0,
        0.5,
        -0.5,
        f32::MIN_POSITIVE,
        -f32::MIN_POSITIVE,
        1.0e-40,
        -1.0e-40,
        f32::MAX,
        f32::MIN,
        f32::INFINITY,
        f32::NEG_INFINITY,
        f32::NAN,
        3.25,
        -3.25,
    ];
    for a in samples {
        for b in samples {
            assert_eq!(value(a).lt(value(b)), a < b, "{a} < {b}");
            assert_eq!(value(a).gt(value(b)), a > b, "{a} > {b}");
        }
    }
}

#[test]
fn zeros_compare_equal() {
    assert!(!value(-0.0).lt(value(0.0)));
    assert!(!value(0.0).lt(value(-0.0)));
    assert!(!value(-0.0).gt(value(0.0)));
}

#[test]
fn min_and_max_pick_the_number_over_nan() {
    assert_eq!(value(1.0).min(value(2.0)), value(1.0));
    assert_eq!(value(2.0).min(value(1.0)), value(1.0));
    assert_eq!(value(1.0).max(value(2.0)), value(2.0));
    assert_eq!(value(2.0).max(value(1.0)), value(2.0));
    assert_eq!(value(f32::NAN).min(value(1.0)), value(1.0));
    assert_eq!(value(1.0).min(value(f32::NAN)), value(1.0));
    assert_eq!(value(f32::NAN).max(value(1.0)), value(1.0));
    assert_eq!(value(1.0).max(value(f32::NAN)), value(1.0));
    assert_eq!(value(-3.0).min(value(-4.0)), value(-4.0));
    assert_eq!(value(-3.0).max(value(-4.0)), value(-3.0));
}

#[test]
fn min_and_max_keep_the_first_of_equals() {
    assert_eq!(value(0.0).min(value(-0.0)), value(0.0));
    assert_eq!(value(-0.0).max(value(0.0)), value(-0.0));
}

#[test]
fn clamp_holds_to_the_band() {
    assert_eq!(value(1.0).clamp(value(-0.2), value(0.2)), value(0.2));
    assert_eq!(value(-1.0).clamp(value(-0.2), value(0.2)), value(-0.2));
    assert_eq!(value(0.1).clamp(value(-0.2), value(0.2)), value(0.1));
    assert_eq!(value(0.2).clamp(value(-0.2), value(0.2)), value(0.2));
}

#[test]
fn clamp_leaves_nan() {
    assert!(value(f32::NAN).clamp(value(-0.2), value(0.2)).is_nan());
}

#[test]
fn clamp_with_bounds_out_of_order_prefers_the_lower_test() {
    // Below `low` wins over above `high`.
    assert_eq!(value(0.0).clamp(value(1.0), value(-1.0)), value(1.0));
    assert_eq!(value(2.0).clamp(value(1.0), value(-1.0)), value(-1.0));
}
