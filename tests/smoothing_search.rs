use splinify::search::DEFAULT_ITERATIONS;
use splinify::{Phase, SmoothingSearch, Step};

/// Runs a search against a stand-in solver whose knot count grows as the
/// target shrinks, and whose rms is the target itself.
fn run(
    rms_start: f64,
    ratio: f64,
    n_iter: Option<usize>,
    knots_at: impl Fn(f64) -> i32,
    converged: impl Fn(i32, i32, f64, f64) -> bool,
) -> (Step<f64>, usize, i32, f64) {
    let (mut s, mut step) = SmoothingSearch::start(rms_start, n_iter);
    let mut fits = 0usize;
    let mut last = (0, 0.0);
    loop {
        step = match step {
            Step::Fit { target } => {
                fits += 1;
                last = (knots_at(target), target);
                s.fitted(0, last.0, last.1)
            }
            Step::Shrink { rms } => {
                fits += 1;
                let target = rms * ratio;
                last = (knots_at(target), target);
                s.fitted(0, last.0, last.1)
            }
            Step::Judge { knots, added, rms, rms_prev } => {
                s.judged(converged(knots, added, rms, rms_prev - rms))
            }
            done => return (done, fits, last.0, last.1),
        }
    }
}

fn knots_for(target: f64) -> i32 {
    8 + (1.0 / target).log2().max(0.0) as i32 * 3
}

#[test]
fn search_stops_just_above_knot_goal() {
    let (step, fits, knots, rms) = run(1.0, 0.5, None, knots_for, |k, _, _, _| k > 30);
    assert!(matches!(step, Step::Accept));
    assert!(fits <= DEFAULT_ITERATIONS + 2);
    // eight shrinks reach 32 knots; the final fit is made at the rms before the last shrink
    assert_eq!(fits, 10);
    assert_eq!(rms, 1.0 / 128.0);
    assert_eq!(knots, 29);
    assert!(rms <= 1.0);
}

#[test]
fn search_without_convergence_fails() {
    let (step, fits, _, _) = run(1.0, 0.8, Some(5), knots_for, |_, _, _, _| false);
    match step {
        Step::Fail { error } => assert_eq!(error.code(), 206),
        _ => panic!("expected failure"),
    }
    assert_eq!(fits, 6);
}

#[test]
fn search_with_no_steps_fails_after_first_fit() {
    let (step, fits, _, _) = run(1.0, 0.8, Some(0), knots_for, |_, _, _, _| true);
    match step {
        Step::Fail { error } => assert_eq!(error.code(), 206),
        _ => panic!("expected failure"),
    }
    assert_eq!(fits, 1);
}

#[test]
fn search_judges_knots_added_and_final_target() {
    let (mut s, step) = SmoothingSearch::start(1.0, Some(40));
    assert!(matches!(step, Step::Fit { target } if target == 1.0));
    assert!(matches!(s.fitted(0, 8, 0.9), Step::Shrink { rms } if rms == 0.9));
    match s.fitted(0, 12, 0.45) {
        Step::Judge { knots, added, rms, rms_prev } => {
            assert_eq!((knots, added), (12, 4));
            assert_eq!((rms, rms_prev), (0.45, 0.9));
        }
        _ => panic!("expected a verdict request"),
    }
    assert!(matches!(s.judged(true), Step::Fit { target } if target == 0.9));
    assert_eq!(s.phase(), Phase::Finishing);
    assert!(matches!(s.fitted(-1, 9, 0.9), Step::Accept));
    assert_eq!(s.phase(), Phase::Done);
}

#[test]
fn solver_error_aborts_search() {
    let (mut s, _) = SmoothingSearch::start(1.0, None);
    assert!(matches!(s.fitted(0, 8, 0.9), Step::Shrink { .. }));
    match s.fitted(2, 0, 0.0) {
        Step::Fail { error } => assert_eq!(error.code(), 2),
        _ => panic!("expected failure"),
    }
    assert_eq!(s.phase(), Phase::Failed);
    match s.judged(true) {
        Step::Fail { error } => assert_eq!(error.code(), 10),
        _ => panic!("expected failure"),
    }
}

#[test]
fn first_fit_failure_aborts_search() {
    let (mut s, _) = SmoothingSearch::start(1.0, None);
    match s.fitted(10, 0, 0.0) {
        Step::Fail { error } => assert_eq!(error.code(), 10),
        _ => panic!("expected failure"),
    }
}
