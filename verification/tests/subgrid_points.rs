use neopdf::subgrid::{Gap, SubGrid};

fn bits(values: &[f64]) -> Vec<u64> {
    values.iter().map(|v| v.to_bits()).collect()
}

/// The sum of the squared differences that the gaps name, in the order given.
fn squared_distance(gaps: &[Gap]) -> f64 {
    gaps.iter()
        .map(|gap| match *gap {
            Gap::Inside => 0.0,
            Gap::Below { min, value } => {
                (f64::from_bits(min) - f64::from_bits(value))
                    * (f64::from_bits(min) - f64::from_bits(value))
            }
            Gap::Above { value, max } => {
                (f64::from_bits(value) - f64::from_bits(max))
                    * (f64::from_bits(value) - f64::from_bits(max))
            }
        })
        .sum()
}

fn two_d_subgrid() -> SubGrid {
    SubGrid::new(
        bits(&[1.0]),
        bits(&[0.118]),
        bits(&[0.0]),
        bits(&[1e-5, 1e-3, 1e-1, 1.0]),
        bits(&[1.0, 10.0, 100.0, 1e4]),
        1,
        vec![0; 16],
    )
}

fn five_axis_subgrid() -> SubGrid {
    // Active: xi, delta, kT.
    SubGrid::new_8d(
        bits(&[1.0]),
        bits(&[0.118]),
        bits(&[0.1, 0.2]),
        bits(&[-1.0, 1.0]),
        bits(&[10.0, 20.0]),
        bits(&[0.01, 1.0]),
        bits(&[4.0, 400.0]),
        1,
        vec![0; 32],
    )
}

#[test]
fn point_inside_all_ranges_is_contained_at_distance_zero() {
    let subgrid = two_d_subgrid();
    let point = bits(&[5e-2, 50.0]);
    assert!(subgrid.contains_point(&point));
    let gaps = subgrid.distance_to_point(&point);
    assert_eq!(gaps, vec![Gap::Inside, Gap::Inside]);
    assert_eq!(squared_distance(&gaps), 0.0);
}

#[test]
fn point_above_the_x_range_is_at_the_squared_gap() {
    let subgrid = two_d_subgrid();
    let point = bits(&[2.0, 50.0]);
    assert!(!subgrid.contains_point(&point));
    let gaps = subgrid.distance_to_point(&point);
    assert_eq!(
        gaps,
        vec![Gap::Above { value: 2.0f64.to_bits(), max: 1.0f64.to_bits() }, Gap::Inside]
    );
    assert_eq!(squared_distance(&gaps), 1.0);
}

#[test]
fn point_below_both_ranges_adds_both_gaps() {
    let subgrid = two_d_subgrid();
    let point = bits(&[-3.0, 0.5]);
    assert!(!subgrid.contains_point(&point));
    let gaps = subgrid.distance_to_point(&point);
    assert_eq!(
        gaps,
        vec![
            Gap::Below { min: 1e-5f64.to_bits(), value: (-3.0f64).to_bits() },
            Gap::Below { min: 1.0f64.to_bits(), value: 0.5f64.to_bits() },
        ]
    );
    assert_eq!(squared_distance(&gaps), (1e-5 + 3.0) * (1e-5 + 3.0) + 0.25);
}

#[test]
fn points_on_the_border_are_contained() {
    let subgrid = two_d_subgrid();
    for x in [1e-5, 1.0] {
        for q2 in [1.0, 1e4] {
            let point = bits(&[x, q2]);
            assert!(subgrid.contains_point(&point));
            assert_eq!(squared_distance(&subgrid.distance_to_point(&point)), 0.0);
        }
    }
}

#[test]
fn point_of_another_length_is_not_contained() {
    let subgrid = two_d_subgrid();
    assert!(!subgrid.contains_point(&bits(&[5e-2])));
    assert!(!subgrid.contains_point(&bits(&[1.0, 5e-2, 50.0])));
    assert!(!subgrid.contains_point(&[]));
    // The distance is taken over the coordinates that have a range.
    assert_eq!(subgrid.distance_to_point(&bits(&[2.0])).len(), 1);
    assert_eq!(subgrid.distance_to_point(&bits(&[5e-2, 50.0, 7.0])).len(), 2);
    assert_eq!(subgrid.distance_to_point(&[]), Vec::new());
}

#[test]
fn active_axes_come_first_in_a_point() {
    let subgrid = five_axis_subgrid();
    // xi, delta, kT, x, Q².
    let inside = bits(&[0.15, 0.0, 15.0, 0.5, 40.0]);
    assert!(subgrid.contains_point(&inside));
    assert_eq!(subgrid.distance_to_point(&inside), vec![Gap::Inside; 5]);
    // kT = 0.15 lies below its range although xi = 0.15 would not.
    let swapped = bits(&[15.0, 0.0, 0.15, 0.5, 40.0]);
    assert!(!subgrid.contains_point(&swapped));
    let gaps = subgrid.distance_to_point(&swapped);
    assert_eq!(gaps[0], Gap::Above { value: 15.0f64.to_bits(), max: 0.2f64.to_bits() });
    assert_eq!(gaps[1], Gap::Inside);
    assert_eq!(gaps[2], Gap::Below { min: 10.0f64.to_bits(), value: 0.15f64.to_bits() });
    assert!(!subgrid.contains_point(&bits(&[0.5, 40.0])));
}

#[test]
fn no_gap_exactly_where_the_point_is_contained() {
    let subgrid = five_axis_subgrid();
    let xi = [0.05, 0.1, 0.2, 0.3];
    let delta = [-2.0, -1.0, 1.0];
    let kt = [9.0, 10.0, 21.0];
    let x = [0.001, 0.01, 1.0];
    let q2 = [4.0, 400.0, 401.0];
    for a in xi {
        for b in delta {
            for c in kt {
                for d in x {
                    for e in q2 {
                        let point = bits(&[a, b, c, d, e]);
                        let gaps = subgrid.distance_to_point(&point);
                        let none = gaps.iter().all(|g| *g == Gap::Inside);
                        assert_eq!(subgrid.contains_point(&point), none);
                        assert_eq!(squared_distance(&gaps) == 0.0, none);
                    }
                }
            }
        }
    }
}

#[test]
fn a_nan_coordinate_is_neither_contained_nor_away() {
    let subgrid = two_d_subgrid();
    let point = bits(&[f64::NAN, 50.0]);
    assert!(!subgrid.contains_point(&point));
    assert_eq!(subgrid.distance_to_point(&point), vec![Gap::Inside, Gap::Inside]);
}
