use splinify::knots::cardinal_knots;

#[test]
fn cardinal_knots_are_clamped() {
    let t = cardinal_knots(&vec![0.0, 10.0, 20.0, 30.0], 3).unwrap();
    assert_eq!(
        t,
        vec![0.0, 0.0, 0.0, 0.0, 0.0, 10.0, 20.0, 30.0, 30.0, 30.0, 30.0, 30.0]
    );
    let l = cardinal_knots(&vec![1, 2], 1).unwrap();
    assert_eq!(l, vec![1, 1, 1, 2, 2, 2]);
}

#[test]
fn cardinal_spacing_wider_than_data_is_refused() {
    // a spacing of 20 over data in [3, 17] leaves a grid of at most one knot
    assert_eq!(cardinal_knots(&vec![10.0], 3).unwrap_err().code(), 205);
    let empty: Vec<f64> = Vec::new();
    assert_eq!(cardinal_knots(&empty, 3).unwrap_err().code(), 205);
}
