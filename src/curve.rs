//! The canonical curve: a knot vector and per-dimension coefficients.

use vstd::prelude::*;

use crate::error::{
    DierckxError, BAD_COEFFICIENT_COUNT, BAD_DEGREE, BAD_DIMENSION, SHORT_KNOT_VECTOR,
};
use crate::request::lemma_row_index;

verus! {

/// Whether `k`, `dim` and the lengths of a knot vector and a coefficient
/// array make a curve: a positive degree, a dimension in `1..=10`, and
/// `c_len == dim * (t_len - k - 1)`.
pub open spec fn curve_shape(k: int, dim: int, t_len: int, c_len: int) -> bool {
    &&& k >= 1
    &&& 1 <= dim <= 10
    &&& t_len >= k + 1
    &&& c_len == dim * (t_len - k - 1)
}

/// The first fault that keeps `k`, `dim` and the lengths from making a curve.
pub open spec fn curve_shape_fault(k: int, dim: int, t_len: int, c_len: int) -> Option<i32> {
    if k < 1 {
        Some(BAD_DEGREE)
    } else if !(1 <= dim <= 10) {
        Some(BAD_DIMENSION)
    } else if !(t_len >= k + 1 && c_len == dim * (t_len - k - 1)) {
        Some(BAD_COEFFICIENT_COUNT)
    } else {
        None
    }
}

/// The first fault that keeps a raw solver result from making a curve: `n`
/// knots of degree `k` in `dim` dimensions, from a knot buffer of `t_len`
/// and a coefficient buffer of `c_len` values.
pub open spec fn raw_fault(k: int, dim: int, n: int, t_len: int, c_len: int) -> Option<i32> {
    if k < 1 {
        Some(BAD_DEGREE)
    } else if !(1 <= dim <= 10) {
        Some(BAD_DIMENSION)
    } else if !(k + 1 <= n <= t_len && n * dim <= c_len) {
        Some(BAD_COEFFICIENT_COUNT)
    } else {
        None
    }
}

/// Whether `r` holds the coefficients of a raw solver buffer `c` with the
/// padding dropped: the buffer keeps dimension `d` in `c[d * n ..]`, of which
/// the first `n - k - 1` slots are used, and `r` keeps them in
/// `r[d * (n - k - 1) ..]`.
pub open spec fn is_compacted<T>(r: Seq<T>, c: Seq<T>, n: int, k: int, dim: int) -> bool {
    &&& r.len() == dim * (n - k - 1)
    &&& forall|d: int, j: int|
        0 <= d < dim && 0 <= j < n - k - 1 ==> #[trigger] r[d * (n - k - 1) + j] == c[d * n + j]
}

/// Drops the `k + 1` unused trailing slots from each of the `dim` segments of
/// length `n` of a raw coefficient buffer.
pub fn compact_coefficients<T: Copy>(c: &Vec<T>, n: usize, k: usize, dim: usize) -> (r: Vec<T>)
    requires
        k + 1 <= n,
        n * dim <= c@.len(),
    ensures
        is_compacted(r@, c@, n as int, k as int, dim as int),
{
    let nc = n - k - 1;
    let c_len = c.len();
    let mut r: Vec<T> = Vec::new();
    let mut d: usize = 0;
    while d < dim
        invariant
            0 <= d <= dim,
            nc == n - k - 1,
            c_len == c@.len(),
            n * dim <= c@.len(),
            r@.len() == d * nc,
            forall|a: int, j: int|
                0 <= a < d && 0 <= j < nc ==> #[trigger] r@[a * nc + j] == c@[a * n + j],
        decreases dim - d,
    {
        proof {
            assert(d * n + n <= dim * n) by (nonlinear_arith)
                requires
                    d + 1 <= dim,
                    n >= 0,
            ;
            assert(d * n >= 0) by (nonlinear_arith)
                requires
                    d >= 0,
                    n >= 0,
            ;
        }
        let base = d * n;
        let mut j: usize = 0;
        while j < nc
            invariant
                0 <= d < dim,
                0 <= j <= nc,
                nc == n - k - 1,
                base == d * n,
                c_len == c@.len(),
                base + n <= c@.len(),
                r@.len() == d * nc + j,
                forall|a: int, b: int|
                    0 <= a < d && 0 <= b < nc ==> #[trigger] r@[a * nc + b] == c@[a * n + b],
                forall|b: int| 0 <= b < j ==> #[trigger] r@[d * nc + b] == c@[base + b],
            decreases nc - j,
        {
            let ghost prev = r@;
            r.push(c[base + j]);
            proof {
                assert forall|a: int, b: int| 0 <= a < d && 0 <= b < nc implies #[trigger] r@[a * nc
                    + b] == c@[a * n + b] by {
                    lemma_row_index(a, b, d as int, nc as int);
                    assert(r@[a * nc + b] == prev[a * nc + b]);
                }
            }
            j = j + 1;
        }
        proof {
            assert(r@.len() == (d + 1) * nc) by (nonlinear_arith)
                requires
                    r@.len() == d * nc + nc,
            ;
        }
        d = d + 1;
    }
    r
}

/// A B-spline curve of degree `k` in `dim` dimensions.
///
/// The coefficients of dimension `d` are `c[d * nc .. (d + 1) * nc]` with
/// `nc = len(t) - k - 1`. A curve cannot be changed once made.
#[derive(Debug, Clone)]
pub struct Spline<T> {
    t: Vec<T>,
    c: Vec<T>,
    k: usize,
    dim: usize,
    e: Option<T>,
}

impl<T: Copy> Spline<T> {
    /// The knot vector.
    pub closed spec fn knots(&self) -> Seq<T> {
        self.t@
    }

    /// The coefficients, dimension after dimension.
    pub closed spec fn coefs(&self) -> Seq<T> {
        self.c@
    }

    /// The degree.
    pub closed spec fn degree(&self) -> nat {
        self.k as nat
    }

    /// The number of dimensions.
    pub closed spec fn dims(&self) -> nat {
        self.dim as nat
    }

    /// The root-mean-square error of the fit that gave the curve, if known.
    pub closed spec fn rms(&self) -> Option<T> {
        self.e
    }

    /// The invariant of every curve.
    pub open spec fn wf(&self) -> bool {
        curve_shape(
            self.degree() as int,
            self.dims() as int,
            self.knots().len() as int,
            self.coefs().len() as int,
        )
    }

    /// The number of coefficients per dimension.
    pub open spec fn n_coefs(&self) -> int {
        self.knots().len() - self.degree() - 1
    }

    /// A curve without a fit error.
    pub fn new(t: Vec<T>, c: Vec<T>, k: usize, dim: usize) -> (r: Result<Self, DierckxError>)
        ensures
            r is Ok <==> curve_shape(k as int, dim as int, t@.len() as int, c@.len() as int),
            r is Err ==> curve_shape_fault(k as int, dim as int, t@.len() as int, c@.len() as int)
                == Some(r->Err_0.code_spec()),
            r is Ok ==> {
                &&& r->Ok_0.wf()
                &&& r->Ok_0.knots() == t@
                &&& r->Ok_0.coefs() == c@
                &&& r->Ok_0.degree() == k
                &&& r->Ok_0.dims() == dim
                &&& r->Ok_0.rms() is None
            },
    {
        Self::with_e_rms(t, c, k, dim, None)
    }

    /// A curve with the error `e_rms` of the fit that gave it.
    pub fn with_e_rms(t: Vec<T>, c: Vec<T>, k: usize, dim: usize, e_rms: Option<T>) -> (r: Result<
        Self,
        DierckxError,
    >)
        ensures
            r is Ok <==> curve_shape(k as int, dim as int, t@.len() as int, c@.len() as int),
            r is Err ==> curve_shape_fault(k as int, dim as int, t@.len() as int, c@.len() as int)
                == Some(r->Err_0.code_spec()),
            r is Ok ==> {
                &&& r->Ok_0.wf()
                &&& r->Ok_0.knots() == t@
                &&& r->Ok_0.coefs() == c@
                &&& r->Ok_0.degree() == k
                &&& r->Ok_0.dims() == dim
                &&& r->Ok_0.rms() == e_rms
            },
    {
        if k < 1 {
            return Err(DierckxError::new(BAD_DEGREE));
        }
        if dim < 1 || dim > 10 {
            return Err(DierckxError::new(BAD_DIMENSION));
        }
        if t.len() <= k {
            return Err(DierckxError::new(BAD_COEFFICIENT_COUNT));
        }
        let nc = t.len() - k - 1;
        let c_len = c.len();
        match dim.checked_mul(nc) {
            Some(total) => {
                if c_len != total {
                    return Err(DierckxError::new(BAD_COEFFICIENT_COUNT));
                }
            },
            None => return Err(DierckxError::new(BAD_COEFFICIENT_COUNT)),
        }
        Ok(Spline { t, c, k, dim, e: e_rms })
    }

    /// The curve that a solver returned: `n` knots at the front of the knot
    /// buffer `t`, and `dim` segments of `n` slots in the coefficient buffer
    /// `c`, each ending in `k + 1` unused slots.
    ///
    /// The knots are cut to `n` and the padding is dropped, so the curve keeps
    /// exactly `dim * (n - k - 1)` coefficients.
    pub fn from_raw(t: Vec<T>, c: Vec<T>, n: usize, k: usize, dim: usize, e_rms: Option<T>) -> (r:
        Result<Self, DierckxError>)
        ensures
            r is Ok <==> raw_fault(k as int, dim as int, n as int, t@.len() as int, c@.len() as int)
                is None,
            r is Err ==> raw_fault(k as int, dim as int, n as int, t@.len() as int, c@.len() as int)
                == Some(r->Err_0.code_spec()),
            r is Ok ==> {
                &&& r->Ok_0.wf()
                &&& r->Ok_0.knots() == t@.subrange(0, n as int)
                &&& is_compacted(r->Ok_0.coefs(), c@, n as int, k as int, dim as int)
                &&& r->Ok_0.degree() == k
                &&& r->Ok_0.dims() == dim
                &&& r->Ok_0.rms() == e_rms
            },
    {
        if k < 1 {
            return Err(DierckxError::new(BAD_DEGREE));
        }
        if dim < 1 || dim > 10 {
            return Err(DierckxError::new(BAD_DIMENSION));
        }
        if n <= k || n > t.len() {
            return Err(DierckxError::new(BAD_COEFFICIENT_COUNT));
        }
        let c_len = c.len();
        match n.checked_mul(dim) {
            Some(total) => {
                if total > c_len {
                    return Err(DierckxError::new(BAD_COEFFICIENT_COUNT));
                }
            },
            None => return Err(DierckxError::new(BAD_COEFFICIENT_COUNT)),
        }
        let cc = compact_coefficients(&c, n, k, dim);
        let mut tt = t;
        tt.truncate(n);
        Ok(Spline { t: tt, c: cc, k, dim, e: e_rms })
    }

    /// The knot vector.
    pub fn t(&self) -> (r: &Vec<T>)
        ensures
            r@ == self.knots(),
    {
        &self.t
    }

    /// The coefficients, dimension after dimension.
    pub fn c(&self) -> (r: &Vec<T>)
        ensures
            r@ == self.coefs(),
    {
        &self.c
    }

    /// The degree.
    pub fn k(&self) -> (r: usize)
        ensures
            r == self.degree(),
    {
        self.k
    }

    /// The number of dimensions.
    pub fn dim(&self) -> (r: usize)
        ensures
            r == self.dims(),
    {
        self.dim
    }

    /// The root-mean-square error of the fit that gave the curve, if known.
    pub fn e_rms(&self) -> (r: Option<T>)
        ensures
            r == self.rms(),
    {
        self.e
    }

    /// Takes the curve apart into its knots, coefficients and fit error.
    pub fn into_parts(self) -> (r: (Vec<T>, Vec<T>, Option<T>))
        ensures
            r.0@ == self.knots(),
            r.1@ == self.coefs(),
            r.2 == self.rms(),
    {
        (self.t, self.c, self.e)
    }

    /// Checks that the curve can be evaluated: its knot vector holds at least
    /// `2k + 2` knots.
    pub fn check_evaluable(&self) -> (r: Result<(), DierckxError>)
        requires
            self.wf(),
        ensures
            r is Ok <==> self.knots().len() >= 2 * self.degree() + 2,
            r is Err ==> r->Err_0.code_spec() == SHORT_KNOT_VECTOR,
    {
        if self.t.len() / 2 >= self.k + 1 {
            Ok(())
        } else {
            Err(DierckxError::new(SHORT_KNOT_VECTOR))
        }
    }

    /// The `k + 1` coefficients of dimension `d` that act on knot interval
    /// `i` (`t[i] <= x <= t[i + 1]`): `c[d * nc + i - k ..= d * nc + i]`.
    ///
    /// `None` where `d` is not a dimension of the curve or `i` lies outside
    /// `k..nc`.
    pub fn window(&self, d: usize, i: usize) -> (r: Option<Vec<T>>)
        requires
            self.wf(),
        ensures
            r is Some <==> d < self.dims() && self.degree() <= i < self.n_coefs(),
            r is Some ==> r->0@ == self.coefs().subrange(
                d * self.n_coefs() + i - self.degree(),
                d * self.n_coefs() + i + 1,
            ),
    {
        let nc = self.t.len() - self.k - 1;
        let c_len = self.c.len();
        if d >= self.dim || i < self.k || i >= nc {
            return None;
        }
        proof {
            assert(d * nc + nc <= self.dim * nc) by (nonlinear_arith)
                requires
                    d + 1 <= self.dim,
                    nc >= 0,
            ;
            assert(c_len == self.dim * nc);
            assert(d * nc >= 0) by (nonlinear_arith)
                requires
                    d >= 0,
                    nc >= 0,
            ;
        }
        let lo = d * nc + i - self.k;
        let hi = d * nc + i + 1;
        let mut w: Vec<T> = Vec::new();
        let mut j: usize = lo;
        while j < hi
            invariant
                lo <= j <= hi,
                hi <= self.c@.len(),
                w@ == self.c@.subrange(lo as int, j as int),
            decreases hi - j,
        {
            w.push(self.c[j]);
            proof {
                assert(w@ =~= self.c@.subrange(lo as int, j + 1));
            }
            j = j + 1;
        }
        Some(w)
    }
}

} // verus!
