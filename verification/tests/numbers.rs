use openxr_stream::float32::Float32;

fn of(value: f32) -> Float32 {
    Float32 { bits: value.to_bits() }
}

fn samples() -> Vec<f32> {
    let mut values = vec![
        0.0,
        -0.0,
        1.0,
        -1.0,
        0.5,
        1.25,
        2.5,
        5.0,
        7.5,
        10.0,
        -10.0,
        0.001,
        f32::MIN_POSITIVE,
        f32::MAX,
        f32::MIN,
        f32::INFINITY,
        f32::NEG_INFINITY,
        f32::NAN,
        f32::EPSILON,
    ];
    for offset in 0..64u32 {
        values.push(f32::from_bits(1.0f32.to_bits() - 32 + offset));
        values.push(f32::from_bits(offset));
        values.push(f32::from_bits(0x007f_ffe0 + offset));
        values.push(f32::from_bits(0x7f7f_ffe0 + offset));
        values.push(-f32::from_bits(1.25f32.to_bits() - 32 + offset));
    }
    values
}

#[test]
fn equality_is_that_of_floats() {
    for a in samples() {
        for b in samples() {
            assert_eq!(of(a).equals(&of(b)), a == b);
        }
    }
}

#[test]
fn both_zeros_are_equal_and_nan_equals_nothing() {
    assert!(of(0.0).equals(&of(-0.0)));
    assert!(!of(f32::NAN).equals(&of(f32::NAN)));
    assert!(of(f32::NAN).is_nan());
    assert!(!of(f32::INFINITY).is_nan());
}

#[test]
fn about_one_is_less_than_epsilon_away() {
    for a in samples() {
        assert_eq!(of(a).is_about_one(), (a - 1.0).abs() < f32::EPSILON);
    }
    assert!(of(1.0).is_about_one());
    assert!(Float32 { bits: 0x3f7f_ffff }.is_about_one());
    assert!(!Float32 { bits: 0x3f7f_fffe }.is_about_one());
    assert!(!of(1.0 + f32::EPSILON).is_about_one());
}

#[test]
fn doubling_is_that_of_floats() {
    for a in samples() {
        let twice = of(a).double();
        if a.is_nan() {
            assert!(twice.is_nan());
        } else {
            assert_eq!(twice, of(a * 2.0));
        }
    }
    assert_eq!(of(7.5).double(), of(15.0));
    assert_eq!(of(f32::MAX).double(), of(f32::INFINITY));
}

#[test]
fn magnitudes_compare_without_sign() {
    for a in samples() {
        for limit in [1.25f32, 2.5, 5.0, 7.5, 10.0] {
            assert_eq!(of(a).magnitude_exceeds(&of(limit)), a.abs() > limit);
        }
    }
}
