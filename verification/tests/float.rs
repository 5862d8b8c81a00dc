use runestick::float::Float;

fn samples() -> Vec<f64> {
    vec![
        0.0,
        -0.0,
        1.0,
        -1.0,
        1.5,
        -1.5,
        2.0,
        1e300,
        -1e300,
        5e-324,
        -5e-324,
        f64::MIN_POSITIVE,
        f64::MAX,
        f64::MIN,
        f64::INFINITY,
        f64::NEG_INFINITY,
        f64::NAN,
        -f64::NAN,
        f64::from_bits(0x7ff0_0000_0000_0001),
        f64::from_bits(0xfff8_0000_0000_0000),
    ]
}

fn float(value: f64) -> Float {
    Float::from_bits(value.to_bits())
}

#[test]
fn classification_agrees_with_the_hardware() {
    for value in samples() {
        assert_eq!(float(value).is_nan(), value.is_nan(), "{:?}", value);
        assert_eq!(float(value).is_finite(), value.is_finite(), "{:?}", value);
        assert_eq!(float(value).to_bits(), value.to_bits());
    }
}

#[test]
fn comparison_agrees_with_the_hardware() {
    for a in samples() {
        for b in samples() {
            assert_eq!(float(a).numeric_eq(float(b)), a == b, "{:?} == {:?}", a, b);
            assert_eq!(float(a).lt(float(b)), a < b, "{:?} < {:?}", a, b);
            assert_eq!(float(a).le(float(b)), a <= b, "{:?} <= {:?}", a, b);
        }
    }
}

#[test]
fn exact_values() {
    assert_eq!(Float::from_bits(0x3ff8_0000_0000_0000), float(1.5));
    assert!(float(1.5).lt(float(2.5)));
    assert!(!float(2.5).lt(float(1.5)));
    assert!(float(0.0).numeric_eq(float(-0.0)));
    assert!(float(0.0) != float(-0.0));
    assert!(!float(f64::NAN).numeric_eq(float(f64::NAN)));
    assert!(float(f64::NAN) == float(f64::NAN));
}
