use neopdf::scalar;

#[test]
fn order_of_bit_patterns_matches_the_numbers() {
    let values: [f64; 11] = [
        f64::NEG_INFINITY, -1.0e300, -2.5, -1.0e-310, -0.0, 0.0, 5.0e-324, 1.0e-10, 1.0, 3.5e10,
        f64::INFINITY,
    ];
    for a in values {
        for b in values {
            assert_eq!(scalar::le(a.to_bits(), b.to_bits()), a <= b);
            assert_eq!(scalar::lt(a.to_bits(), b.to_bits()), a < b);
        }
        assert!(!scalar::le(a.to_bits(), f64::NAN.to_bits()));
        assert!(!scalar::lt(f64::NAN.to_bits(), a.to_bits()));
        assert!(!scalar::is_nan(a.to_bits()));
        assert_eq!(scalar::magnitude(a.to_bits()), a.abs().to_bits());
    }
    assert!(scalar::is_nan(f64::NAN.to_bits()));
    assert!(scalar::is_nan((-f64::NAN).to_bits()));
    assert!(!scalar::le(f64::NAN.to_bits(), f64::NAN.to_bits()));
}

/// A fixed sequence of bit patterns that covers both signs, every exponent
/// range and some NaNs.
fn patterns() -> Vec<u64> {
    let mut state: u64 = 0x9E37_79B9_7F4A_7C15;
    let mut out = vec![
        0,
        1,
        0x8000_0000_0000_0000,
        0x8000_0000_0000_0001,
        0x000F_FFFF_FFFF_FFFF,
        0x0010_0000_0000_0000,
        0x7FEF_FFFF_FFFF_FFFF,
        0x7FF0_0000_0000_0000,
        0x7FF0_0000_0000_0001,
        0x7FF8_0000_0000_0000,
        0xFFF0_0000_0000_0000,
        0xFFF0_0000_0000_0001,
        0xFFFF_FFFF_FFFF_FFFF,
        0x3FF0_0000_0000_0000,
        0xBFF0_0000_0000_0000,
    ];
    for _ in 0..150 {
        state = state.wrapping_mul(6364136223846793005).wrapping_add(1442695040888963407);
        out.push(state);
        out.push(state >> 1);
        out.push((state >> 12) | 0x7FF0_0000_0000_0000);
    }
    out
}

#[test]
fn every_pattern_compares_as_its_number() {
    let all = patterns();
    for &a in &all {
        let x = f64::from_bits(a);
        assert_eq!(scalar::is_nan(a), x.is_nan());
        assert_eq!(scalar::magnitude(a), x.abs().to_bits());
        for &b in &all {
            let y = f64::from_bits(b);
            assert_eq!(scalar::le(a, b), x <= y, "{x:e} <= {y:e}");
            assert_eq!(scalar::lt(a, b), x < y, "{x:e} < {y:e}");
        }
    }
}

#[test]
fn the_named_patterns_are_the_numbers() {
    assert_eq!(scalar::ZERO, 0.0f64.to_bits());
    assert_eq!(scalar::ONE, 1.0f64.to_bits());
    assert_eq!(scalar::INFINITY, f64::INFINITY.to_bits());
    assert_eq!(scalar::SIGN_BIT, (-0.0f64).to_bits());
}
