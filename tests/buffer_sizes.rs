use splinify::sizing::{closed_sizes, curve_sizes, parametric_sizes};

#[test]
fn scalar_fit_sizes() {
    let s = curve_sizes(6, 3).unwrap();
    assert_eq!(s.nest, 10);
    assert_eq!(s.lwrk, 6 * 4 + 10 * 16);
    assert_eq!(s.nc, 10);
    assert_eq!(s.np, 0);
    assert_eq!(s.mx, 6);
}

#[test]
fn parametric_fit_sizes() {
    let s = parametric_sizes(6, 3, 2).unwrap();
    assert_eq!(s.nest, 14);
    assert_eq!(s.lwrk, 262);
    assert_eq!(s.nc, 28);
    assert_eq!(s.np, 16);
    assert_eq!(s.mx, 12);
    let l = parametric_sizes(4000, 1, 1).unwrap();
    assert_eq!(l.nest, 4002);
    assert_eq!(l.lwrk, 4000 * 2 + 4002 * 10);
}

#[test]
fn closed_fit_sizes() {
    let s = closed_sizes(6, 3, 2).unwrap();
    assert_eq!(s.nest, 12);
    assert_eq!(s.lwrk, 312);
    assert_eq!(s.nc, 24);
    assert_eq!(s.np, 0);
    assert_eq!(s.mx, 12);
}

#[test]
fn sizes_beyond_solver_integers_are_refused() {
    assert!(curve_sizes(i32::MAX as usize, 3).is_none());
    assert!(parametric_sizes(100_000_000, 5, 10).is_none());
    assert!(closed_sizes(usize::MAX, 1, 1).is_none());
    assert!(curve_sizes(1000, 3).is_some());
}
