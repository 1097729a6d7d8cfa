use neopdf::interpolator::{ActiveAxes, InterpolationConfig, UnsupportedAxes};

fn classify(n: bool, a: bool, xi: bool, d: bool, k: bool) -> Result<InterpolationConfig, UnsupportedAxes> {
    let len = |on: bool| if on { 3 } else { 1 };
    InterpolationConfig::from_dimensions(len(n), len(a), len(xi), len(d), len(k))
}

#[test]
fn every_documented_pattern_has_its_class() {
    let t = true;
    let f = false;
    assert_eq!(classify(f, f, f, f, f), Ok(InterpolationConfig::TwoD));
    assert_eq!(classify(t, f, f, f, f), Ok(InterpolationConfig::ThreeDNucleons));
    assert_eq!(classify(f, t, f, f, f), Ok(InterpolationConfig::ThreeDAlphas));
    assert_eq!(classify(f, f, t, f, f), Ok(InterpolationConfig::ThreeDXi));
    assert_eq!(classify(f, f, f, t, f), Ok(InterpolationConfig::ThreeDDelta));
    assert_eq!(classify(f, f, f, f, t), Ok(InterpolationConfig::ThreeDKt));
    assert_eq!(classify(t, t, f, f, f), Ok(InterpolationConfig::FourDNucleonsAlphas));
    assert_eq!(classify(t, f, f, f, t), Ok(InterpolationConfig::FourDNucleonsKt));
    assert_eq!(classify(f, t, f, f, t), Ok(InterpolationConfig::FourDAlphasKt));
    assert_eq!(classify(f, f, t, t, f), Ok(InterpolationConfig::FourDXiDelta));
    assert_eq!(classify(f, f, t, t, t), Ok(InterpolationConfig::FiveD));
    assert_eq!(classify(t, f, t, t, t), Ok(InterpolationConfig::SixD));
    assert_eq!(classify(t, t, t, t, t), Ok(InterpolationConfig::SevenD));
}

#[test]
fn all_thirty_two_patterns_are_decided() {
    let mut classes = 0;
    let mut rejected = 0;
    for mask in 0u32..32 {
        let on = |bit: u32| mask & (1 << bit) != 0;
        let axes = ActiveAxes {
            nucleons: on(0),
            alphas: on(1),
            xi: on(2),
            delta: on(3),
            kt: on(4),
        };
        match classify(axes.nucleons, axes.alphas, axes.xi, axes.delta, axes.kt) {
            Ok(_) => classes += 1,
            Err(e) => {
                assert_eq!(e, UnsupportedAxes { axes });
                rejected += 1;
            }
        }
    }
    assert_eq!(classes, 13);
    assert_eq!(rejected, 19);
}

#[test]
fn patterns_without_a_class_are_rejected() {
    let t = true;
    let f = false;
    assert!(classify(t, t, f, f, t).is_err());
    assert!(classify(f, f, f, t, t).is_err());
    assert!(classify(t, f, t, f, f).is_err());
    assert!(classify(f, t, t, t, t).is_err());
    assert!(classify(t, t, t, t, f).is_err());
}

#[test]
fn an_axis_is_active_from_two_coordinates_on() {
    assert_eq!(InterpolationConfig::from_dimensions(0, 1, 1, 1, 1), Ok(InterpolationConfig::TwoD));
    assert_eq!(
        InterpolationConfig::from_dimensions(2, 1, 1, 1, 1),
        Ok(InterpolationConfig::ThreeDNucleons)
    );
    assert_eq!(
        InterpolationConfig::from_dimensions(1, 1, 1, 1, usize::MAX),
        Ok(InterpolationConfig::ThreeDKt)
    );
}
