use neopdf::metadata::{InterpolatorType, MetaData, MetaDataV1, MetaDataV2, SetType, UNSET_BELOW};

fn b(value: f64) -> u64 {
    value.to_bits()
}

fn sample_v1() -> MetaDataV1 {
    MetaDataV1 {
        set_desc: String::from("A nuclear set"),
        set_index: 90400,
        num_members: 101,
        x_min: b(1e-9),
        x_max: b(1.0),
        q_min: b(1.65),
        q_max: b(1e5),
        flavors: vec![-5, -4, -3, -2, -1, 21, 1, 2, 3, 4, 5],
        format: String::from("neopdf"),
        alphas_q_values: vec![b(1.65), b(91.1876)],
        alphas_vals: vec![b(0.33), b(0.118)],
        polarised: true,
        set_type: SetType::TimeLike,
        interpolator_type: InterpolatorType::LogTricubic,
        error_type: String::from("replicas"),
        hadron_pid: 2212,
        git_version: String::from("abc123"),
        code_version: String::from("0.2.1"),
        flavor_scheme: String::from("variable"),
        order_qcd: 2,
        alphas_order_qcd: 3,
        m_w: b(80.352),
        m_z: b(91.1876),
        m_up: b(0.0),
        m_down: b(0.0),
        m_strange: b(0.0),
        m_charm: b(1.51),
        m_bottom: b(4.92),
        m_top: b(172.5),
        alphas_type: String::from("ipol"),
        number_flavors: 5,
    }
}

fn sample_v2(xi: (f64, f64), delta: (f64, f64), interpolator: InterpolatorType) -> MetaDataV2 {
    let mut v2 = MetaDataV2::from(sample_v1());
    v2.xi_min = b(xi.0);
    v2.xi_max = b(xi.1);
    v2.delta_min = b(delta.0);
    v2.delta_max = b(delta.1);
    v2.interpolator_type = interpolator;
    v2
}

fn assert_same_v1(left: &MetaDataV1, right: &MetaDataV1) {
    assert_eq!(left.set_desc, right.set_desc);
    assert_eq!(left.set_index, right.set_index);
    assert_eq!(left.num_members, right.num_members);
    assert_eq!(left.x_min, right.x_min);
    assert_eq!(left.x_max, right.x_max);
    assert_eq!(left.q_min, right.q_min);
    assert_eq!(left.q_max, right.q_max);
    assert_eq!(left.flavors, right.flavors);
    assert_eq!(left.format, right.format);
    assert_eq!(left.alphas_q_values, right.alphas_q_values);
    assert_eq!(left.alphas_vals, right.alphas_vals);
    assert_eq!(left.polarised, right.polarised);
    assert_eq!(left.set_type, right.set_type);
    assert_eq!(left.interpolator_type, right.interpolator_type);
    assert_eq!(left.error_type, right.error_type);
    assert_eq!(left.hadron_pid, right.hadron_pid);
    assert_eq!(left.git_version, right.git_version);
    assert_eq!(left.code_version, right.code_version);
    assert_eq!(left.flavor_scheme, right.flavor_scheme);
    assert_eq!(left.order_qcd, right.order_qcd);
    assert_eq!(left.alphas_order_qcd, right.alphas_order_qcd);
    assert_eq!(left.m_w, right.m_w);
    assert_eq!(left.m_z, right.m_z);
    assert_eq!(left.m_up, right.m_up);
    assert_eq!(left.m_down, right.m_down);
    assert_eq!(left.m_strange, right.m_strange);
    assert_eq!(left.m_charm, right.m_charm);
    assert_eq!(left.m_bottom, right.m_bottom);
    assert_eq!(left.m_top, right.m_top);
    assert_eq!(left.alphas_type, right.alphas_type);
    assert_eq!(left.number_flavors, right.number_flavors);
}

#[test]
fn threshold_is_one_part_in_ten_thousand_million() {
    assert_eq!(UNSET_BELOW, 1e-10f64.to_bits());
}

#[test]
fn upgrade_sets_the_neutral_ranges() {
    let v2 = MetaDataV2::from(sample_v1());
    assert_eq!(f64::from_bits(v2.xi_min), 1.0);
    assert_eq!(f64::from_bits(v2.xi_max), 1.0);
    assert_eq!(f64::from_bits(v2.delta_min), 0.0);
    assert_eq!(f64::from_bits(v2.delta_max), 0.0);
    assert_eq!(v2.set_desc, "A nuclear set");
    assert_eq!(v2.flavors, sample_v1().flavors);
    assert_eq!(v2.number_flavors, 5);
}

#[test]
fn upgrade_then_downgrade_loses_nothing() {
    let back = MetaDataV2::from(sample_v1()).to_v1();
    assert_same_v1(&back, &sample_v1());
}

#[test]
fn downgrade_drops_the_ranges_only() {
    let v2 = sample_v2((0.1, 0.9), (-2.0, 2.0), InterpolatorType::LogFourCubic);
    let v1 = v2.to_v1();
    let mut expected = sample_v1();
    expected.interpolator_type = InterpolatorType::LogFourCubic;
    assert_same_v1(&v1, &expected);
    let again = MetaDataV2::from(v1);
    assert_eq!(f64::from_bits(again.xi_min), 1.0);
    assert_eq!(f64::from_bits(again.delta_max), 0.0);
}

#[test]
fn record_without_ranges_is_held_in_the_first_schema() {
    let record = MetaData::from_record(sample_v2((0.0, 0.0), (0.0, 0.0), InterpolatorType::LogBicubic));
    assert!(!record.is_v2());
    assert_same_v1(&record.as_latest(), &{
        let mut v1 = sample_v1();
        v1.interpolator_type = InterpolatorType::LogBicubic;
        v1
    });
    let upgraded = record.as_latest_v2();
    assert_eq!(f64::from_bits(upgraded.xi_min), 1.0);
    assert_eq!(f64::from_bits(upgraded.xi_max), 1.0);
}

#[test]
fn record_with_a_range_is_held_in_the_second_schema() {
    for (xi, delta) in [
        ((0.1, 0.0), (0.0, 0.0)),
        ((0.0, 0.5), (0.0, 0.0)),
        ((0.0, 0.0), (-0.5, 0.0)),
        ((0.0, 0.0), (0.0, 2e-10)),
        ((0.0, 0.0), (-2e-10, 0.0)),
    ] {
        let record = MetaData::from_record(sample_v2(xi, delta, InterpolatorType::LogBicubic));
        assert!(record.is_v2());
        let kept = record.as_latest_v2();
        assert_eq!(f64::from_bits(kept.xi_min), xi.0);
        assert_eq!(f64::from_bits(kept.xi_max), xi.1);
        assert_eq!(f64::from_bits(kept.delta_min), delta.0);
        assert_eq!(f64::from_bits(kept.delta_max), delta.1);
    }
}

#[test]
fn record_with_the_neutral_ranges_is_held_in_the_second_schema() {
    // xi = [1, 1] differs from zero: a record upgraded from the first schema
    // reads back in the second.
    let record = MetaData::from_record(sample_v2((1.0, 1.0), (0.0, 0.0), InterpolatorType::LogBicubic));
    assert!(record.is_v2());
    let mut expected = sample_v1();
    expected.interpolator_type = InterpolatorType::LogBicubic;
    assert_same_v1(&record.as_latest(), &expected);
}

#[test]
fn record_with_ranges_at_the_threshold_is_held_in_the_first_schema() {
    let record = MetaData::from_record(sample_v2((1e-10, -1e-10), (1e-11, -0.0), InterpolatorType::Bilinear));
    assert!(!record.is_v2());
    let record = MetaData::from_record(sample_v2((f64::NAN, 0.0), (0.0, 0.0), InterpolatorType::Bilinear));
    assert!(!record.is_v2());
    let record = MetaData::from_record(sample_v2((1.0000000000000002e-10, 0.0), (0.0, 0.0), InterpolatorType::Bilinear));
    assert!(record.is_v2());
    let record = MetaData::from_record(sample_v2((0.0, 0.0), (f64::NEG_INFINITY, 0.0), InterpolatorType::Bilinear));
    assert!(record.is_v2());
}

#[test]
fn four_cubic_interpolation_is_held_in_the_second_schema() {
    let record = MetaData::from_record(sample_v2((0.0, 0.0), (0.0, 0.0), InterpolatorType::LogFourCubic));
    assert!(record.is_v2());
    assert_eq!(*record.interpolator_type(), InterpolatorType::LogFourCubic);
}

#[test]
fn is_extended_tells_the_schema() {
    assert!(sample_v2((1.0, 1.0), (0.0, 0.0), InterpolatorType::LogBicubic).is_extended());
    assert!(!sample_v2((0.0, 0.0), (0.0, 0.0), InterpolatorType::LogChebyshev).is_extended());
}

#[test]
fn accessors_read_either_schema() {
    let first = MetaData::new_v1(sample_v1());
    let second = MetaData::new_v2(sample_v2((0.1, 0.9), (0.0, 0.0), InterpolatorType::LogTricubic));
    assert!(!first.is_v2());
    assert!(second.is_v2());
    assert!(!MetaData::current_v1(sample_v1()).is_v2());
    assert!(MetaData::current_v2(MetaDataV2::from(sample_v1())).is_v2());
    for record in [&first, &second] {
        assert_eq!(record.set_desc(), "A nuclear set");
        assert_eq!(*record.interpolator_type(), InterpolatorType::LogTricubic);
        assert_eq!(record.alphas_q_values(), &[b(1.65), b(91.1876)]);
        assert_eq!(record.alphas_vals(), &[b(0.33), b(0.118)]);
        assert_eq!(record.alphas_order_qcd(), 3);
        assert_eq!(f64::from_bits(record.m_z()), 91.1876);
        assert_eq!(
            record.quark_masses(),
            (b(0.0), b(0.0), b(0.0), b(1.51), b(4.92), b(172.5))
        );
        assert_eq!(record.alphas_type(), "ipol");
        assert_same_v1(&record.as_latest(), &sample_v1());
        assert_same_v1(&record.clone().as_latest(), &sample_v1());
        assert_eq!(record.clone().is_v2(), record.is_v2());
    }
    assert_eq!(f64::from_bits(second.as_latest_v2().xi_max), 0.9);
    assert_eq!(f64::from_bits(first.as_latest_v2().xi_max), 1.0);
}

#[test]
fn fields_of_the_first_schema_are_read_and_written_directly() {
    let mut record = MetaData::new_v1(sample_v1());
    assert_eq!(record.deref().set_index, 90400);
    record.deref_mut().set_index = 7;
    record.deref_mut().flavors.push(6);
    assert_eq!(record.deref().set_index, 7);
    assert_eq!(record.as_latest().flavors.len(), 12);
    assert!(!record.is_v2());
}

#[test]
fn ordinals_are_stable() {
    let all = [
        InterpolatorType::Bilinear,
        InterpolatorType::LogBilinear,
        InterpolatorType::LogBicubic,
        InterpolatorType::LogTricubic,
        InterpolatorType::InterpNDLinear,
        InterpolatorType::LogChebyshev,
        InterpolatorType::LogFourCubic,
    ];
    for (place, value) in all.iter().enumerate() {
        assert_eq!(value.ordinal() as usize, place);
        assert_eq!(InterpolatorType::from_ordinal(place as u32), Some(*value));
    }
    assert_eq!(InterpolatorType::from_ordinal(7), None);
    assert_eq!(InterpolatorType::from_ordinal(u32::MAX), None);
}

#[test]
fn defaults_are_spacelike_and_log_bicubic() {
    assert_eq!(SetType::default(), SetType::SpaceLike);
    assert_eq!(InterpolatorType::default(), InterpolatorType::LogBicubic);
}
