use neopdf::layout::shape_fits;

#[test]
fn payload_must_match_the_product_of_the_shape() {
    assert!(shape_fits(&[2, 3, 4], 24));
    assert!(!shape_fits(&[2, 3, 4], 23));
    assert!(!shape_fits(&[2, 3, 4], 25));
    assert!(shape_fits(&[], 1));
    assert!(!shape_fits(&[], 0));
    assert!(shape_fits(&[7], 7));
}

#[test]
fn an_empty_axis_makes_an_empty_payload() {
    assert!(shape_fits(&[2, 0, 4], 0));
    assert!(!shape_fits(&[2, 0, 4], 8));
    assert!(shape_fits(&[0, 0], 0));
}

#[test]
fn a_shape_beyond_the_address_space_never_fits() {
    let big = usize::MAX / 2 + 1;
    assert!(!shape_fits(&[big, 1], big));
    assert!(!shape_fits(&[usize::MAX, usize::MAX], 1));
    assert!(!shape_fits(&[usize::MAX, 2, 0], 0));
    assert!(!shape_fits(&[0, usize::MAX, 2], 0));
    let most = isize::MAX as usize;
    assert!(shape_fits(&[most, 1, 0], 0));
    assert!(shape_fits(&[1, most], most));
}
