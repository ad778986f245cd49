//! Decisions of the smoothing-spline search.
//!
//! The solver takes an error budget, not a knot count. The search starts with
//! a smoothing fit at a given rms target, then keeps shrinking the target and
//! refitting from the previous knots until a caller's predicate accepts the
//! result; it then refits once, from scratch, at the last target before the
//! accepted shrink. This module decides each step; the caller runs the solver,
//! computes the shrunken targets and evaluates the predicate. The rms values
//! are carried as an opaque type `R`.

use vstd::prelude::*;

use crate::error::{DierckxError, INVALID_INPUT, NOT_CONVERGED};

verus! {

/// Number of shrink steps that a search takes when the caller names none.
pub const DEFAULT_ITERATIONS: usize = 40;

/// Where a search stands.
#[derive(Debug, Clone, Copy, PartialEq, Eq, Structural)]
pub enum Phase {
    /// Waiting for the result of the first fit.
    Starting,
    /// Waiting for the result of a continued fit at a shrunken target.
    Shrinking,
    /// Waiting for the caller's verdict on the last continued fit.
    Judging,
    /// Waiting for the result of the final fit.
    Finishing,
    /// The final fit succeeded; its curve is the result.
    Done,
    /// The search failed.
    Failed,
}

/// What the caller does next.
#[derive(Debug, Clone, Copy)]
pub enum Step<R> {
    /// Fit from scratch (not continuing from earlier knots) at rms target
    /// `target`, then report with `fitted`.
    Fit { target: R },
    /// Fit continuing from the current knots, at the target `rms` times the
    /// shrink ratio, then report with `fitted`.
    Shrink { rms: R },
    /// Evaluate the convergence predicate on these values, then report with
    /// `judged`.
    Judge { knots: i32, added: i32, rms: R, rms_prev: R },
    /// The last fit is the result: take its curve.
    Accept,
    /// Stop with this error.
    Fail { error: DierckxError },
}

/// Whether `s` stops the search with error code `code`.
pub open spec fn fails_with<R>(s: Step<R>, code: i32) -> bool {
    match s {
        Step::Fail { error } => error.code_spec() == code,
        _ => false,
    }
}

/// The state of one smoothing search.
#[derive(Clone, Copy)]
pub struct SmoothingSearch<R> {
    n_iter: usize,
    iter: usize,
    phase: Phase,
    knots: i32,
    rms: R,
    rms_prev: R,
    fits: Ghost<nat>,
}

impl<R: Copy> SmoothingSearch<R> {
    /// The number of shrink steps allowed.
    pub closed spec fn iterations(&self) -> nat {
        self.n_iter as nat
    }

    /// The number of shrink steps judged so far.
    pub closed spec fn judged_steps(&self) -> nat {
        self.iter as nat
    }

    /// Where the search stands.
    pub closed spec fn phase_spec(&self) -> Phase {
        self.phase
    }

    /// The knot count of the last fit.
    pub closed spec fn last_knots(&self) -> i32 {
        self.knots
    }

    /// The rms error of the last fit.
    pub closed spec fn last_rms(&self) -> R {
        self.rms
    }

    /// The rms error of the fit before the last.
    pub closed spec fn prev_rms(&self) -> R {
        self.rms_prev
    }

    /// The number of fits that the search has asked for.
    pub closed spec fn requested_fits(&self) -> nat {
        self.fits@
    }

    /// The invariant of every search: it never judges more steps than
    /// allowed, it asks for at most two fits more than it has judged, and its
    /// knot counts are never negative.
    pub open spec fn wf(&self) -> bool {
        &&& self.judged_steps() <= self.iterations()
        &&& (self.phase_spec() is Shrinking || self.phase_spec() is Judging) ==> self.judged_steps()
            < self.iterations()
        &&& self.requested_fits() <= self.judged_steps() + 2
        &&& self.phase_spec() is Starting ==> self.requested_fits() == 1 && self.judged_steps() == 0
        &&& self.last_knots() >= 0
    }

    /// Starts a search at rms target `rms_start`, with `n_iter` shrink steps
    /// (40 if `None`). The first step is a fit from scratch at `rms_start`.
    pub fn start(rms_start: R, n_iter: Option<usize>) -> (r: (Self, Step<R>))
        ensures
            r.0.wf(),
            r.0.phase_spec() == Phase::Starting,
            r.0.judged_steps() == 0,
            r.0.requested_fits() == 1,
            r.0.iterations() == match n_iter {
                Some(n) => n,
                None => DEFAULT_ITERATIONS,
            },
            r.1 == (Step::Fit { target: rms_start }),
    {
        let n = match n_iter {
            Some(n) => n,
            None => DEFAULT_ITERATIONS,
        };
        (
            SmoothingSearch {
                n_iter: n,
                iter: 0,
                phase: Phase::Starting,
                knots: 0,
                rms: rms_start,
                rms_prev: rms_start,
                fits: Ghost(1),
            },
            Step::Fit { target: rms_start },
        )
    }

    /// Where the search stands.
    pub fn phase(&self) -> (r: Phase)
        ensures
            r == self.phase_spec(),
    {
        self.phase
    }

    /// Reports the outcome of the fit that the last step asked for: the
    /// solver's status `ierr`, the knot count and the rms error of the fit.
    ///
    /// A solver failure (`ierr > 0`) ends the search with that status at once.
    /// After the first fit the search shrinks, or fails as not converged if no
    /// shrink step is allowed; after a continued fit it asks for a verdict;
    /// after the final fit it accepts. A negative knot count, or a report that
    /// no step asked for, ends the search as invalid input.
    pub fn fitted(&mut self, ierr: i32, knots: i32, rms: R) -> (r: Step<R>)
        requires
            old(self).wf(),
        ensures
            final(self).wf(),
            final(self).iterations() == old(self).iterations(),
            final(self).judged_steps() == old(self).judged_steps(),
            final(self).requested_fits() == old(self).requested_fits() + if r is Shrink {
                1nat
            } else {
                0nat
            },
            !(old(self).phase_spec() is Starting || old(self).phase_spec() is Shrinking
                || old(self).phase_spec() is Finishing) ==> fails_with(r, INVALID_INPUT) && final(self).phase_spec() == Phase::Failed,
            (old(self).phase_spec() is Starting || old(self).phase_spec() is Shrinking
                || old(self).phase_spec() is Finishing) ==> {
                if ierr > 0 {
                    &&& fails_with(r, ierr)
                    &&& final(self).phase_spec() == Phase::Failed
                } else if knots < 0 {
                    &&& fails_with(r, INVALID_INPUT)
                    &&& final(self).phase_spec() == Phase::Failed
                } else {
                    &&& final(self).last_knots() == knots
                    &&& final(self).last_rms() == rms
                    &&& match old(self).phase_spec() {
                        Phase::Starting => if old(self).judged_steps() < old(self).iterations() {
                            &&& r == (Step::Shrink { rms })
                            &&& final(self).phase_spec() == Phase::Shrinking
                        } else {
                            &&& fails_with(r, NOT_CONVERGED)
                            &&& final(self).phase_spec() == Phase::Failed
                        },
                        Phase::Shrinking => {
                            &&& r == (Step::Judge {
                                knots,
                                added: (knots - old(self).last_knots()) as i32,
                                rms,
                                rms_prev: old(self).last_rms(),
                            })
                            &&& final(self).prev_rms() == old(self).last_rms()
                            &&& final(self).phase_spec() == Phase::Judging
                        },
                        _ => {
                            &&& r == Step::<R>::Accept
                            &&& final(self).phase_spec() == Phase::Done
                        },
                    }
                }
            },
    {
        match self.phase {
            Phase::Starting | Phase::Shrinking | Phase::Finishing => {},
            _ => {
                self.phase = Phase::Failed;
                return Step::Fail { error: DierckxError::new(INVALID_INPUT) };
            },
        }
        if ierr > 0 {
            self.phase = Phase::Failed;
            return Step::Fail { error: DierckxError::new(ierr) };
        }
        if knots < 0 {
            self.phase = Phase::Failed;
            return Step::Fail { error: DierckxError::new(INVALID_INPUT) };
        }
        match self.phase {
            Phase::Starting => {
                self.knots = knots;
                self.rms = rms;
                if self.iter < self.n_iter {
                    self.phase = Phase::Shrinking;
                    self.fits = Ghost(self.fits@ + 1);
                    Step::Shrink { rms }
                } else {
                    self.phase = Phase::Failed;
                    Step::Fail { error: DierckxError::new(NOT_CONVERGED) }
                }
            },
            Phase::Shrinking => {
                let added = knots - self.knots;
                let rms_prev = self.rms;
                self.rms_prev = rms_prev;
                self.knots = knots;
                self.rms = rms;
                self.phase = Phase::Judging;
                Step::Judge { knots, added, rms, rms_prev }
            },
            _ => {
                self.knots = knots;
                self.rms = rms;
                self.phase = Phase::Done;
                Step::Accept
            },
        }
    }
    /// Reports the caller's verdict on the last continued fit.
    ///
    /// Each verdict counts one shrink step. If the fit is accepted, the next
    /// step is a fit from scratch at the rms of the fit before it, the last
    /// target before the accepted shrink. Otherwise the search shrinks again
    /// while steps remain, and fails as not converged when none do. A verdict
    /// that no step asked for ends the search as invalid input.
    pub fn judged(&mut self, converged: bool) -> (r: Step<R>)
        requires
            old(self).wf(),
        ensures
            final(self).wf(),
            final(self).iterations() == old(self).iterations(),
            final(self).last_knots() == old(self).last_knots(),
            final(self).last_rms() == old(self).last_rms(),
            final(self).prev_rms() == old(self).prev_rms(),
            old(self).phase_spec() != Phase::Judging ==> {
                &&& fails_with(r, INVALID_INPUT)
                &&& final(self).phase_spec() == Phase::Failed
                &&& final(self).judged_steps() == old(self).judged_steps()
                &&& final(self).requested_fits() == old(self).requested_fits()
            },
            old(self).phase_spec() == Phase::Judging ==> {
                &&& final(self).judged_steps() == old(self).judged_steps() + 1
                &&& if converged {
                    &&& r == (Step::Fit { target: old(self).prev_rms() })
                    &&& final(self).phase_spec() == Phase::Finishing
                    &&& final(self).requested_fits() == old(self).requested_fits() + 1
                } else if final(self).judged_steps() < final(self).iterations() {
                    &&& r == (Step::Shrink { rms: old(self).last_rms() })
                    &&& final(self).phase_spec() == Phase::Shrinking
                    &&& final(self).requested_fits() == old(self).requested_fits() + 1
                } else {
                    &&& fails_with(r, NOT_CONVERGED)
                    &&& final(self).phase_spec() == Phase::Failed
                    &&& final(self).requested_fits() == old(self).requested_fits()
                }
            },
    {
        if self.phase != Phase::Judging {
            self.phase = Phase::Failed;
            return Step::Fail { error: DierckxError::new(INVALID_INPUT) };
        }
        self.iter = self.iter + 1;
        if converged {
            self.phase = Phase::Finishing;
            self.fits = Ghost(self.fits@ + 1);
            Step::Fit { target: self.rms_prev }
        } else if self.iter < self.n_iter {
            self.phase = Phase::Shrinking;
            self.fits = Ghost(self.fits@ + 1);
            Step::Shrink { rms: self.rms }
        } else {
            self.phase = Phase::Failed;
            Step::Fail { error: DierckxError::new(NOT_CONVERGED) }
        }
    }
}

/// A search never asks for more than two fits beyond its shrink steps: the
/// first fit, one continued fit per step, and the final fit.
pub proof fn lemma_search_bounded<R: Copy>(s: SmoothingSearch<R>)
    requires
        s.wf(),
    ensures
        s.requested_fits() <= s.iterations() + 2,
{
}

/// A search started without a step count judges at most 40 steps and asks
/// for at most 42 fits.
pub proof fn lemma_default_search_bounded<R: Copy>(s: SmoothingSearch<R>)
    requires
        s.wf(),
        s.iterations() == DEFAULT_ITERATIONS,
    ensures
        s.judged_steps() <= 40,
        s.requested_fits() <= 42,
{
}

} // verus!
