//! Status and error codes shared by the solver and this library.

use vstd::prelude::*;

verus! {

/// Normal return of a weighted least-squares fit; `fp` bounds the smoothing factor.
pub const LSQ_BOUND_REACHED: i32 = -2;
/// Normal return of an interpolating fit.
pub const INTERPOLATED: i32 = -1;
/// Normal return.
pub const NORMAL: i32 = 0;
/// The solver ran out of storage, or the smoothing target is too small.
pub const OUT_OF_STORAGE: i32 = 1;
/// The smoothing target is too small.
pub const TARGET_TOO_SMALL: i32 = 2;
/// The solver reached its iteration limit.
pub const ITERATION_LIMIT: i32 = 3;
/// The solver rejected its input.
pub const INVALID_INPUT: i32 = 10;
/// The curve dimension lies outside `1..=10`.
pub const BAD_DIMENSION: i32 = 200;
/// Fewer than two parameter values were given.
pub const TOO_FEW_POINTS: i32 = 201;
/// The coordinate array does not hold `dim` values per parameter value.
pub const BAD_COORDINATE_COUNT: i32 = 202;
/// The weights array does not hold one weight per parameter value.
pub const BAD_WEIGHT_COUNT: i32 = 203;
/// More derivative constraints than the degree allows.
pub const TOO_MANY_CONSTRAINTS: i32 = 204;
/// The cardinal knot spacing leaves no interval inside the data.
pub const SPACING_TOO_LARGE: i32 = 205;
/// The smoothing search used up its iterations.
pub const NOT_CONVERGED: i32 = 206;
/// The first fit of the smoothing search failed.
pub const SEARCH_START_FAILED: i32 = 207;
/// The degree is not 1, 3 or 5.
pub const BAD_DEGREE: i32 = 208;
/// The query values are not strictly increasing.
pub const UNSORTED_QUERY: i32 = 209;
/// The knot vector is shorter than `2k + 2`.
pub const SHORT_KNOT_VECTOR: i32 = 210;
/// The first and last points of a closed curve do not coincide.
pub const OPEN_CURVE: i32 = 211;
/// The coefficient count does not match the knot vector.
pub const BAD_COEFFICIENT_COUNT: i32 = 212;

/// The classes of outcome that a code stands for.
#[derive(Debug, Clone, Copy, PartialEq, Eq, Structural)]
pub enum ErrorKind {
    /// One of the solver's normal returns.
    Success,
    /// A failure reported by the solver.
    Solver,
    /// A request rejected before the solver was called.
    Validation,
    /// The smoothing search did not reach its goal.
    SearchNotConverged,
    /// An evaluation request that cannot be served.
    Evaluation,
    /// A code that nothing here defines.
    Unknown,
}

/// Whether a solver status is one of its normal returns.
pub open spec fn is_success_code(code: i32) -> bool {
    code <= 0
}

/// The class of outcome that a code stands for.
pub open spec fn kind_of(code: i32) -> ErrorKind {
    if code == LSQ_BOUND_REACHED || code == INTERPOLATED || code == NORMAL {
        ErrorKind::Success
    } else if code == OUT_OF_STORAGE || code == TARGET_TOO_SMALL || code == ITERATION_LIMIT
        || code == INVALID_INPUT {
        ErrorKind::Solver
    } else if code == NOT_CONVERGED || code == SEARCH_START_FAILED {
        ErrorKind::SearchNotConverged
    } else if code == UNSORTED_QUERY || code == SHORT_KNOT_VECTOR {
        ErrorKind::Evaluation
    } else if (BAD_DIMENSION <= code && code <= SPACING_TOO_LARGE) || code == BAD_DEGREE
        || code == OPEN_CURVE || code == BAD_COEFFICIENT_COUNT {
        ErrorKind::Validation
    } else {
        ErrorKind::Unknown
    }
}

/// The text that describes a code. Codes that the solver and the fit requests
/// share keep their established texts; every other code, those of evaluation
/// and of curve shape among them, reads "unknown error" and is told apart by
/// its `ErrorKind`.
pub open spec fn message_of(code: i32) -> Seq<char> {
    if code == LSQ_BOUND_REACHED {
        "normal return for weighted least squares spline, fp upper bound for smoothing factor"@
    } else if code == INTERPOLATED {
        "normal return for interpolating spline"@
    } else if code == NORMAL {
        "normal return"@
    } else if code == OUT_OF_STORAGE {
        "out of storage space; nest too small (m/2); or s too small"@
    } else if code == TARGET_TOO_SMALL {
        "smoothing spline error, s too small"@
    } else if code == ITERATION_LIMIT {
        "reached iteration limit (20) for finding smoothing spline; s too small"@
    } else if code == INVALID_INPUT {
        "invalid input data; check if -1<=iopt<=1, 1<=k<=5, m>k, nest>2*k+2, w(i)>0,i=1,2,...,m xb<=x(1)<x(2)<...<x(m)<=xe, lwrk>=(k+1)*m+nest*(7+3*k)"@
    } else if code == BAD_DIMENSION {
        "N should be between 1 and 10"@
    } else if code == TOO_FEW_POINTS {
        "need at least 2 parameter values"@
    } else if code == BAD_COORDINATE_COUNT {
        "incorrect size of coordinate array xn"@
    } else if code == BAD_WEIGHT_COUNT {
        "wrong size for weights array"@
    } else if code == TOO_MANY_CONSTRAINTS {
        "too many derivative contraints supplied"@
    } else if code == SPACING_TOO_LARGE {
        "cardinal spline spacing too large: select smaller interval"@
    } else if code == NOT_CONVERGED {
        "smoothing_spline not converged"@
    } else if code == SEARCH_START_FAILED {
        "failed to initialize smoothing_spline"@
    } else if code == BAD_DEGREE {
        "K should be 1, 3 or 5"@
    } else {
        "unknown error"@
    }
}

/// A status code of the solver or of this library.
#[derive(Debug, Clone, Copy, PartialEq, Eq, Structural)]
pub struct DierckxError(i32);

impl DierckxError {
    /// The error that carries `ierr`.
    pub fn new(ierr: i32) -> (r: Self)
        ensures
            r.code_spec() == ierr,
    {
        DierckxError(ierr)
    }

    pub closed spec fn code_spec(&self) -> i32 {
        self.0
    }

    /// The code carried.
    pub fn code(&self) -> (r: i32)
        ensures
            r == self.code_spec(),
    {
        self.0
    }

    /// The class of outcome that the code stands for.
    pub fn kind(&self) -> (r: ErrorKind)
        ensures
            r == kind_of(self.code_spec()),
    {
        let c = self.0;
        if c == LSQ_BOUND_REACHED || c == INTERPOLATED || c == NORMAL {
            ErrorKind::Success
        } else if c == OUT_OF_STORAGE || c == TARGET_TOO_SMALL || c == ITERATION_LIMIT
            || c == INVALID_INPUT {
            ErrorKind::Solver
        } else if c == NOT_CONVERGED || c == SEARCH_START_FAILED {
            ErrorKind::SearchNotConverged
        } else if c == UNSORTED_QUERY || c == SHORT_KNOT_VECTOR {
            ErrorKind::Evaluation
        } else if (BAD_DIMENSION <= c && c <= SPACING_TOO_LARGE) || c == BAD_DEGREE
            || c == OPEN_CURVE || c == BAD_COEFFICIENT_COUNT {
            ErrorKind::Validation
        } else {
            ErrorKind::Unknown
        }
    }

    /// The text that describes the code.
    pub fn message(&self) -> (r: String)
        ensures
            r@ == message_of(self.code_spec()),
    {
        let c = self.0;
        let s: &str = if c == LSQ_BOUND_REACHED {
            "normal return for weighted least squares spline, fp upper bound for smoothing factor"
        } else if c == INTERPOLATED {
            "normal return for interpolating spline"
        } else if c == NORMAL {
            "normal return"
        } else if c == OUT_OF_STORAGE {
            "out of storage space; nest too small (m/2); or s too small"
        } else if c == TARGET_TOO_SMALL {
            "smoothing spline error, s too small"
        } else if c == ITERATION_LIMIT {
            "reached iteration limit (20) for finding smoothing spline; s too small"
        } else if c == INVALID_INPUT {
            "invalid input data; check if -1<=iopt<=1, 1<=k<=5, m>k, nest>2*k+2, w(i)>0,i=1,2,...,m xb<=x(1)<x(2)<...<x(m)<=xe, lwrk>=(k+1)*m+nest*(7+3*k)"
        } else if c == BAD_DIMENSION {
            "N should be between 1 and 10"
        } else if c == TOO_FEW_POINTS {
            "need at least 2 parameter values"
        } else if c == BAD_COORDINATE_COUNT {
            "incorrect size of coordinate array xn"
        } else if c == BAD_WEIGHT_COUNT {
            "wrong size for weights array"
        } else if c == TOO_MANY_CONSTRAINTS {
            "too many derivative contraints supplied"
        } else if c == SPACING_TOO_LARGE {
            "cardinal spline spacing too large: select smaller interval"
        } else if c == NOT_CONVERGED {
            "smoothing_spline not converged"
        } else if c == SEARCH_START_FAILED {
            "failed to initialize smoothing_spline"
        } else if c == BAD_DEGREE {
            "K should be 1, 3 or 5"
        } else {
            "unknown error"
        };
        s.to_owned()
    }
}

/// Whether a solver status is one of its normal returns.
pub fn is_success(ierr: i32) -> (r: bool)
    ensures
        r == is_success_code(ierr),
{
    ierr <= 0
}

} // verus!
