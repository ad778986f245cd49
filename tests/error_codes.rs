use splinify::error::{
    is_success, BAD_DEGREE, INTERPOLATED, LSQ_BOUND_REACHED, NORMAL, NOT_CONVERGED, OPEN_CURVE,
    OUT_OF_STORAGE, SHORT_KNOT_VECTOR, SPACING_TOO_LARGE, UNSORTED_QUERY,
};
use splinify::{DierckxError, ErrorKind};

#[test]
fn error_keeps_its_code() {
    assert_eq!(DierckxError::new(205).code(), 205);
    assert_eq!(DierckxError::new(-1).code(), -1);
}

#[test]
fn solver_normal_returns_are_success() {
    assert!(is_success(LSQ_BOUND_REACHED));
    assert!(is_success(INTERPOLATED));
    assert!(is_success(NORMAL));
    assert!(!is_success(OUT_OF_STORAGE));
    assert!(!is_success(10));
}

#[test]
fn error_kinds_follow_codes() {
    assert_eq!(DierckxError::new(NORMAL).kind(), ErrorKind::Success);
    assert_eq!(DierckxError::new(-2).kind(), ErrorKind::Success);
    assert_eq!(DierckxError::new(1).kind(), ErrorKind::Solver);
    assert_eq!(DierckxError::new(2).kind(), ErrorKind::Solver);
    assert_eq!(DierckxError::new(3).kind(), ErrorKind::Solver);
    assert_eq!(DierckxError::new(10).kind(), ErrorKind::Solver);
    assert_eq!(DierckxError::new(200).kind(), ErrorKind::Validation);
    assert_eq!(DierckxError::new(SPACING_TOO_LARGE).kind(), ErrorKind::Validation);
    assert_eq!(DierckxError::new(BAD_DEGREE).kind(), ErrorKind::Validation);
    assert_eq!(DierckxError::new(OPEN_CURVE).kind(), ErrorKind::Validation);
    assert_eq!(DierckxError::new(NOT_CONVERGED).kind(), ErrorKind::SearchNotConverged);
    assert_eq!(DierckxError::new(UNSORTED_QUERY).kind(), ErrorKind::Evaluation);
    assert_eq!(DierckxError::new(SHORT_KNOT_VECTOR).kind(), ErrorKind::Evaluation);
    assert_eq!(DierckxError::new(99).kind(), ErrorKind::Unknown);
}

#[test]
fn error_messages() {
    assert_eq!(
        DierckxError::new(205).message(),
        "cardinal spline spacing too large: select smaller interval"
    );
    assert_eq!(DierckxError::new(208).message(), "K should be 1, 3 or 5");
    assert_eq!(DierckxError::new(0).message(), "normal return");
    assert_eq!(DierckxError::new(-7).message(), "unknown error");
    assert_eq!(DierckxError::new(UNSORTED_QUERY).message(), "unknown error");
    assert_eq!(DierckxError::new(SHORT_KNOT_VECTOR).message(), "unknown error");
    assert_eq!(DierckxError::new(OPEN_CURVE).message(), "unknown error");
    assert_eq!(DierckxError::new(212).message(), "unknown error");
}
