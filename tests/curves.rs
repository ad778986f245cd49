use splinify::{FitSession, Spline};
use splinify::sizing::parametric_sizes;

#[test]
fn spline_keeps_its_parts() {
    let s = Spline::new(vec![0.0, 0.0, 1.0, 1.0], vec![0.0, 1.0], 1, 1).unwrap();
    assert_eq!(s.t(), &vec![0.0, 0.0, 1.0, 1.0]);
    assert_eq!(s.c(), &vec![0.0, 1.0]);
    assert_eq!(s.k(), 1);
    assert_eq!(s.dim(), 1);
    assert_eq!(s.e_rms(), None);
    let e = Spline::with_e_rms(vec![0.0, 0.0, 1.0, 1.0], vec![0.0, 1.0], 1, 1, Some(0.5)).unwrap();
    assert_eq!(e.e_rms(), Some(0.5));
    let (t, c, rms) = e.into_parts();
    assert_eq!(t.len(), 4);
    assert_eq!(c.len(), 2);
    assert_eq!(rms, Some(0.5));
}

#[test]
fn spline_coefficient_count_is_checked() {
    let t = vec![-2.0, -2.0, -2.0, -2.0, -1.0, 0.0, 1.0, 2.0, 2.0, 2.0, 2.0];
    assert!(Spline::new(t.clone(), vec![0.0; 7], 3, 1).is_ok());
    assert!(Spline::new(t.clone(), vec![0.0; 14], 3, 2).is_ok());
    assert_eq!(Spline::new(t.clone(), vec![0.0; 8], 3, 1).unwrap_err().code(), 212);
    assert_eq!(Spline::new(t.clone(), vec![0.0; 7], 0, 1).unwrap_err().code(), 208);
    assert_eq!(Spline::new(t.clone(), vec![0.0; 7], 3, 0).unwrap_err().code(), 200);
    assert_eq!(Spline::new(t.clone(), vec![0.0; 7], 3, 11).unwrap_err().code(), 200);
    assert_eq!(Spline::new(vec![0.0, 1.0], Vec::new(), 3, 1).unwrap_err().code(), 212);
}

#[test]
fn short_knot_vector_cannot_be_evaluated() {
    let ok = Spline::new(vec![0.0, 0.0, 1.0, 1.0], vec![0.0, 1.0], 1, 1).unwrap();
    assert!(ok.check_evaluable().is_ok());
    let short = Spline::new(vec![0.0, 0.0, 1.0], vec![0.0], 1, 1).unwrap();
    assert_eq!(short.check_evaluable().unwrap_err().code(), 210);
}

#[test]
fn coefficient_windows() {
    let t = vec![-2.0, -2.0, -2.0, -2.0, -1.0, 0.0, 1.0, 2.0, 2.0, 2.0, 2.0];
    let c = vec![0.0, 1.0, 2.0, 3.0, 4.0, 5.0, 6.0, 10.0, 11.0, 12.0, 13.0, 14.0, 15.0, 16.0];
    let s = Spline::new(t, c, 3, 2).unwrap();
    assert_eq!(s.window(0, 3), Some(vec![0.0, 1.0, 2.0, 3.0]));
    assert_eq!(s.window(0, 6), Some(vec![3.0, 4.0, 5.0, 6.0]));
    assert_eq!(s.window(1, 4), Some(vec![11.0, 12.0, 13.0, 14.0]));
    assert_eq!(s.window(0, 7), None);
    assert_eq!(s.window(0, 2), None);
    assert_eq!(s.window(2, 3), None);
}

#[test]
fn raw_solver_output_is_compacted() {
    // n = 6 knots of degree 1 in two dimensions: 4 used slots and 2 unused per dimension
    let t = vec![0.0, 0.0, 1.0, 2.0, 3.0, 3.0, 9.0, 9.0];
    let c = vec![1.0, 2.0, 3.0, 4.0, -1.0, -1.0, 5.0, 6.0, 7.0, 8.0, -1.0, -1.0, 9.0, 9.0];
    let s = Spline::from_raw(t, c, 6, 1, 2, Some(0.25)).unwrap();
    assert_eq!(s.t(), &vec![0.0, 0.0, 1.0, 2.0, 3.0, 3.0]);
    assert_eq!(s.c(), &vec![1.0, 2.0, 3.0, 4.0, 5.0, 6.0, 7.0, 8.0]);
    assert_eq!(s.c().len(), s.dim() * (s.t().len() - s.k() - 1));
    assert_eq!(s.e_rms(), Some(0.25));
}

#[test]
fn raw_solver_output_that_does_not_fit_is_refused() {
    let t = vec![0.0; 6];
    assert_eq!(Spline::from_raw(t.clone(), vec![0.0; 11], 6, 1, 2, None).unwrap_err().code(), 212);
    assert_eq!(Spline::from_raw(t.clone(), vec![0.0; 12], 7, 1, 2, None).unwrap_err().code(), 212);
    assert_eq!(Spline::from_raw(t.clone(), vec![0.0; 12], 1, 1, 2, None).unwrap_err().code(), 212);
    assert!(Spline::from_raw(t, vec![0.0; 12], 6, 1, 2, None).is_ok());
}

#[test]
fn session_buffers_follow_sizes() {
    let sizes = parametric_sizes(6, 3, 2).unwrap();
    let s = FitSession::new(sizes, 3, 2, 6, 0.0f64);
    assert_eq!(s.t.len(), 14);
    assert_eq!(s.c.len(), 28);
    assert_eq!(s.wrk.len(), 262);
    assert_eq!(s.iwrk.len(), 14);
    assert_eq!(s.xx.len(), 12);
    assert_eq!(s.cp.len(), 16);
    assert_eq!(s.n, 0);
    assert!(s.t.iter().chain(s.c.iter()).chain(s.wrk.iter()).all(|v| *v == 0.0));
    assert!(s.iwrk.iter().all(|v| *v == 0));
}

#[test]
fn session_loads_fixed_knots_in_place() {
    let sizes = parametric_sizes(6, 1, 1).unwrap();
    let mut s = FitSession::new(sizes, 1, 1, 6, 0.0f64);
    let nest = s.t.len();
    s.set_knots(&vec![0.0, 0.0, 5.0, 10.0, 10.0]).unwrap();
    assert_eq!(s.n, 5);
    assert_eq!(s.t.len(), nest);
    assert_eq!(&s.t[0..5], &[0.0, 0.0, 5.0, 10.0, 10.0]);
    let too_long = vec![1.0; nest + 1];
    assert_eq!(s.set_knots(&too_long).unwrap_err().code(), 10);
    assert_eq!(s.n, 5);
}

#[test]
fn finished_session_gives_canonical_curve() {
    let sizes = parametric_sizes(4, 1, 2).unwrap();
    let mut s = FitSession::new(sizes, 1, 2, 4, 0.0f64);
    // the solver leaves 4 knots and two back-to-back segments of 4 coefficient slots
    s.n = 4;
    for (i, v) in [0.0, 0.0, 1.0, 1.0].iter().enumerate() {
        s.t[i] = *v;
    }
    for i in 0..4 {
        s.c[i] = i as f64;
        s.c[4 + i] = 10.0 + i as f64;
    }
    let curve = s.finish(Some(0.0)).unwrap();
    assert_eq!(curve.t(), &vec![0.0, 0.0, 1.0, 1.0]);
    assert_eq!(curve.c(), &vec![0.0, 1.0, 10.0, 11.0]);
    assert_eq!(curve.c().len(), curve.dim() * (curve.t().len() - curve.k() - 1));
}

#[test]
fn finished_session_with_negative_knot_count_is_refused() {
    let sizes = parametric_sizes(4, 1, 1).unwrap();
    let mut s = FitSession::new(sizes, 1, 1, 4, 0.0f64);
    s.n = -1;
    assert_eq!(s.finish(None).unwrap_err().code(), 10);
}

#[test]
fn concluded_session_passes_solver_failure_on() {
    let sizes = parametric_sizes(4, 1, 1).unwrap();
    let s = FitSession::new(sizes, 1, 1, 4, 0.0f64);
    assert_eq!(s.conclude(2, None).unwrap_err().code(), 2);
}

#[test]
fn concluded_session_accepts_normal_returns() {
    let sizes = parametric_sizes(4, 1, 1).unwrap();
    let mut s = FitSession::new(sizes, 1, 1, 4, 0.0f64);
    s.set_knots(&vec![0.0, 0.0, 1.0, 1.0]).unwrap();
    s.c[0] = 3.0;
    s.c[1] = 4.0;
    let curve = s.conclude(-1, Some(0.0)).unwrap();
    assert_eq!(curve.t(), &vec![0.0, 0.0, 1.0, 1.0]);
    assert_eq!(curve.c(), &vec![3.0, 4.0]);
}
