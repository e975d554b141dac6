use oas_car::float_bits::{f64_bits_equal, f64_bits_to_u8_saturating, F64_TWO_BITS, F64_ZERO_BITS};

fn samples() -> Vec<f64> {
    let mut values = vec![
        0.0,
        -0.0,
        0.5,
        0.999_999,
        1.0,
        1.5,
        2.0,
        2.5,
        7.0,
        127.9,
        254.99,
        255.0,
        255.5,
        256.0,
        1e10,
        1e300,
        f64::MAX,
        f64::MIN_POSITIVE,
        5e-324,
        -1.0,
        -0.5,
        -300.0,
        f64::INFINITY,
        f64::NEG_INFINITY,
        f64::NAN,
        -f64::NAN,
    ];
    for i in 0..600 {
        values.push(i as f64 / 2.3);
    }
    values
}

#[test]
fn saturating_cast_matches_the_native_cast() {
    for value in samples() {
        assert_eq!(f64_bits_to_u8_saturating(value.to_bits()), value as u8, "{}", value);
    }
}

#[test]
fn saturating_cast_exact_values() {
    assert_eq!(f64_bits_to_u8_saturating(2.5f64.to_bits()), 2);
    assert_eq!(f64_bits_to_u8_saturating(255.9f64.to_bits()), 255);
    assert_eq!(f64_bits_to_u8_saturating(1e9f64.to_bits()), 255);
    assert_eq!(f64_bits_to_u8_saturating((-7.0f64).to_bits()), 0);
    assert_eq!(f64_bits_to_u8_saturating(f64::NAN.to_bits()), 0);
}

#[test]
fn equality_matches_the_native_comparison() {
    let values = samples();
    for a in &values {
        for b in &values {
            assert_eq!(f64_bits_equal(a.to_bits(), b.to_bits()), a == b, "{} {}", a, b);
        }
    }
    assert!(f64_bits_equal(2.0f64.to_bits(), F64_TWO_BITS));
    assert!(f64_bits_equal((-0.0f64).to_bits(), F64_ZERO_BITS));
    assert!(!f64_bits_equal(f64::NAN.to_bits(), f64::NAN.to_bits()));
}
