use neopdf::subgrid::{Gap, ParamRange, RangeParameters};

fn bits(value: f64) -> u64 {
    value.to_bits()
}

#[test]
fn test_param_range() {
    let range = ParamRange::new(bits(1.0), bits(10.0));
    assert!(range.contains(bits(5.0)));
    assert!(!range.contains(bits(15.0)));
}

#[test]
fn range_holds_both_ends_and_nothing_below() {
    let range = ParamRange::new(bits(-2.5), bits(1.0e-3));
    assert_eq!(range.min, bits(-2.5));
    assert_eq!(range.max, bits(1.0e-3));
    assert!(range.contains(range.min));
    assert!(range.contains(range.max));
    assert!(!range.contains(bits(-2.5000000000000004)));
    assert!(!range.contains(bits(f64::NEG_INFINITY)));
    assert!(!range.contains(bits(1.0000000000000002e-3)));
}

#[test]
fn range_of_one_point_holds_both_zeros() {
    let range = ParamRange::new(bits(0.0), bits(0.0));
    assert!(range.contains(bits(0.0)));
    assert!(range.contains(bits(-0.0)));
    assert!(!range.contains(bits(5.0e-324)));
    assert!(!range.contains(bits(-5.0e-324)));
}

#[test]
fn range_never_holds_a_nan() {
    let range = ParamRange::new(bits(f64::NEG_INFINITY), bits(f64::INFINITY));
    assert!(range.contains(bits(1.0e308)));
    assert!(!range.contains(bits(f64::NAN)));
    let broken = ParamRange::new(bits(f64::NAN), bits(1.0));
    assert!(!broken.contains(bits(0.5)));
}

#[test]
fn gap_names_the_nearer_end() {
    let range = ParamRange::new(bits(1.0), bits(10.0));
    assert_eq!(range.gap(bits(5.0)), Gap::Inside);
    assert_eq!(range.gap(bits(1.0)), Gap::Inside);
    assert_eq!(range.gap(bits(10.0)), Gap::Inside);
    assert_eq!(range.gap(bits(0.25)), Gap::Below { min: bits(1.0), value: bits(0.25) });
    assert_eq!(range.gap(bits(15.0)), Gap::Above { value: bits(15.0), max: bits(10.0) });
    assert_eq!(range.gap(bits(f64::NAN)), Gap::Inside);
}

#[test]
fn range_parameters_keep_their_order() {
    let r = |lo: f64, hi: f64| ParamRange::new(bits(lo), bits(hi));
    let all = RangeParameters::new(
        r(1.0, 2.0),
        r(3.0, 4.0),
        r(5.0, 6.0),
        r(7.0, 8.0),
        r(9.0, 10.0),
        r(11.0, 12.0),
        r(13.0, 14.0),
    );
    assert_eq!(f64::from_bits(all.nucleons.max), 2.0);
    assert_eq!(f64::from_bits(all.alphas.min), 3.0);
    assert_eq!(f64::from_bits(all.xi.max), 6.0);
    assert_eq!(f64::from_bits(all.delta.min), 7.0);
    assert_eq!(f64::from_bits(all.kt.max), 10.0);
    assert_eq!(f64::from_bits(all.x.min), 11.0);
    assert_eq!(f64::from_bits(all.q2.max), 14.0);
}

#[test]
fn ranges_agree_with_the_comparisons_of_the_numbers() {
    let values = [
        f64::NEG_INFINITY,
        -7.0,
        -1.0e-300,
        -0.0,
        0.0,
        2.0e-308,
        0.5,
        1.0,
        3.0,
        1.0e300,
        f64::INFINITY,
        f64::NAN,
    ];
    for min in values {
        for max in values {
            let range = ParamRange::new(bits(min), bits(max));
            for p in values {
                assert_eq!(range.contains(bits(p)), p >= min && p <= max);
                let expected = if p < min {
                    Gap::Below { min: bits(min), value: bits(p) }
                } else if p > max {
                    Gap::Above { value: bits(p), max: bits(max) }
                } else {
                    Gap::Inside
                };
                assert_eq!(range.gap(bits(p)), expected);
            }
        }
    }
}
