//! The working state of one fit: the buffers that the solver reads and fills.
//!
//! A session is made once per fit from a validated request, handed to the
//! solver one or more times, and consumed into a curve at the end.

use vstd::prelude::*;

use crate::curve::{raw_fault, is_compacted, Spline};
use crate::error::{DierckxError, INVALID_INPUT};
use crate::sizing::BufferSizes;

verus! {

/// Buffers and counters of one fit.
///
/// The fields are open so that the solver can be handed pointers to them;
/// `buffers_sized` states what a fresh session holds.
pub struct FitSession<T> {
    /// Degree of the fit.
    pub k: usize,
    /// Number of dimensions.
    pub dim: usize,
    /// Number of samples.
    pub m: usize,
    /// The sizes the buffers were made with.
    pub sizes: BufferSizes,
    /// Knot buffer, `nest` long.
    pub t: Vec<T>,
    /// Coefficient buffer, `nc` long.
    pub c: Vec<T>,
    /// Floating-point workspace, `lwrk` long.
    pub wrk: Vec<T>,
    /// Integer workspace, `nest` long.
    pub iwrk: Vec<i32>,
    /// Coordinate workspace, `mx` long.
    pub xx: Vec<T>,
    /// End-point polynomial buffer, `np` long.
    pub cp: Vec<T>,
    /// Number of active knots.
    pub n: i32,
}

/// `m` copies of `v`.
pub(crate) fn filled<T: Copy>(v: T, m: usize) -> (r: Vec<T>)
    ensures
        r@ == Seq::new(m as nat, |_i: int| v),
{
    let mut r: Vec<T> = Vec::new();
    let mut i: usize = 0;
    while i < m
        invariant
            0 <= i <= m,
            r@ == Seq::new(i as nat, |_j: int| v),
        decreases m - i,
    {
        r.push(v);
        proof {
            assert(r@ =~= Seq::new((i + 1) as nat, |_j: int| v));
        }
        i = i + 1;
    }
    r
}

impl<T: Copy> FitSession<T> {
    /// Whether every buffer has the length that `sizes` gives it.
    pub open spec fn buffers_sized(&self) -> bool {
        &&& self.t@.len() == self.sizes.nest
        &&& self.c@.len() == self.sizes.nc
        &&& self.wrk@.len() == self.sizes.lwrk
        &&& self.iwrk@.len() == self.sizes.nest
        &&& self.xx@.len() == self.sizes.mx
        &&& self.cp@.len() == self.sizes.np
    }

    /// A session with buffers of the given sizes, filled with `zero`, and no
    /// active knots.
    pub fn new(sizes: BufferSizes, k: usize, dim: usize, m: usize, zero: T) -> (r: Self)
        ensures
            r.buffers_sized(),
            r.t@ == Seq::new(sizes.nest as nat, |_i: int| zero),
            r.c@ == Seq::new(sizes.nc as nat, |_i: int| zero),
            r.wrk@ == Seq::new(sizes.lwrk as nat, |_i: int| zero),
            r.iwrk@ == Seq::new(sizes.nest as nat, |_i: int| 0i32),
            r.xx@ == Seq::new(sizes.mx as nat, |_i: int| zero),
            r.cp@ == Seq::new(sizes.np as nat, |_i: int| zero),
            r.sizes == sizes,
            r.k == k,
            r.dim == dim,
            r.m == m,
            r.n == 0,
    {
        FitSession {
            k,
            dim,
            m,
            sizes,
            t: filled(zero, sizes.nest),
            c: filled(zero, sizes.nc),
            wrk: filled(zero, sizes.lwrk),
            iwrk: filled(0i32, sizes.nest),
            xx: filled(zero, sizes.mx),
            cp: filled(zero, sizes.np),
            n: 0,
        }
    }

    /// Loads a fixed knot vector for a least-squares fit on given knots.
    ///
    /// The knots go to the front of the knot buffer, whose length stays as it
    /// is, and become the active knots. A knot vector longer than the buffer
    /// is refused as invalid input.
    pub fn set_knots(&mut self, knots: &Vec<T>) -> (r: Result<(), DierckxError>)
        ensures
            r is Ok <==> knots@.len() <= old(self).t@.len() && knots@.len() <= i32::MAX,
            r is Err ==> r->Err_0.code_spec() == INVALID_INPUT && *final(self) == *old(self),
            r is Ok ==> {
                &&& final(self).t@ == knots@ + old(self).t@.skip(knots@.len() as int)
                &&& final(self).n == knots@.len()
                &&& final(self).k == old(self).k
                &&& final(self).dim == old(self).dim
                &&& final(self).m == old(self).m
                &&& final(self).sizes == old(self).sizes
                &&& final(self).c == old(self).c
                &&& final(self).wrk == old(self).wrk
                &&& final(self).iwrk == old(self).iwrk
                &&& final(self).xx == old(self).xx
                &&& final(self).cp == old(self).cp
            },
    {
        let len = knots.len();
        if len > self.t.len() || len > i32::MAX as usize {
            return Err(DierckxError::new(INVALID_INPUT));
        }
        let ghost start = self.t@;
        let ghost before = *self;
        let mut i: usize = 0;
        while i < len
            invariant
                0 <= i <= len,
                len == knots@.len(),
                len <= start.len(),
                self.t@.len() == start.len(),
                start == before.t@,
                self.k == before.k && self.dim == before.dim && self.m == before.m,
                self.sizes == before.sizes && self.n == before.n,
                self.c == before.c && self.wrk == before.wrk && self.iwrk == before.iwrk,
                self.xx == before.xx && self.cp == before.cp,
                forall|j: int| 0 <= j < i ==> #[trigger] self.t@[j] == knots@[j],
                forall|j: int| i <= j < start.len() ==> #[trigger] self.t@[j] == start[j],
            decreases len - i,
        {
            self.t.set(i, knots[i]);
            i = i + 1;
        }
        proof {
            assert(self.t@ =~= knots@ + start.skip(len as int));
        }
        self.n = len as i32;
        Ok(())
    }

    /// Consumes the session into the curve that the solver left in it, with
    /// the fit error `e_rms`.
    ///
    /// The knots are cut to the `n` active ones and the `k + 1` unused slots
    /// are dropped from each dimension's coefficients, so that an accepted fit
    /// always holds `dim * (n - k - 1)` coefficients.
    pub fn finish(self, e_rms: Option<T>) -> (r: Result<Spline<T>, DierckxError>)
        ensures
            r is Ok <==> self.n >= 0 && raw_fault(
                self.k as int,
                self.dim as int,
                self.n as int,
                self.t@.len() as int,
                self.c@.len() as int,
            ) is None,
            r is Ok ==> {
                &&& r->Ok_0.wf()
                &&& r->Ok_0.coefs().len() == r->Ok_0.dims() * (r->Ok_0.knots().len()
                    - r->Ok_0.degree() - 1)
                &&& r->Ok_0.knots().len() == self.n
                &&& r->Ok_0.coefs().len() == self.dim * (self.n - self.k - 1)
                &&& r->Ok_0.knots() == self.t@.subrange(0, self.n as int)
                &&& is_compacted(r->Ok_0.coefs(), self.c@, self.n as int, self.k as int, self.dim as int)
                &&& r->Ok_0.degree() == self.k
                &&& r->Ok_0.dims() == self.dim
                &&& r->Ok_0.rms() == e_rms
            },
    {
        if self.n < 0 {
            return Err(DierckxError::new(INVALID_INPUT));
        }
        Spline::from_raw(self.t, self.c, self.n as usize, self.k, self.dim, e_rms)
    }
    /// Concludes a fit whose last solver call returned `ierr`: a solver
    /// failure (`ierr > 0`) is passed on with its status; any of the solver's
    /// normal returns gives the curve, as `finish` does.
    pub fn conclude(self, ierr: i32, e_rms: Option<T>) -> (r: Result<Spline<T>, DierckxError>)
        ensures
            ierr > 0 ==> r is Err && r->Err_0.code_spec() == ierr,
            ierr <= 0 ==> (r is Ok <==> self.n >= 0 && raw_fault(
                self.k as int,
                self.dim as int,
                self.n as int,
                self.t@.len() as int,
                self.c@.len() as int,
            ) is None),
            r is Ok ==> {
                &&& r->Ok_0.wf()
                &&& r->Ok_0.knots().len() == self.n
                &&& r->Ok_0.coefs().len() == self.dim * (self.n - self.k - 1)
                &&& r->Ok_0.knots() == self.t@.subrange(0, self.n as int)
                &&& is_compacted(r->Ok_0.coefs(), self.c@, self.n as int, self.k as int, self.dim as int)
                &&& r->Ok_0.degree() == self.k
                &&& r->Ok_0.dims() == self.dim
                &&& r->Ok_0.rms() == e_rms
            },
    {
        if ierr > 0 {
            return Err(DierckxError::new(ierr));
        }
        self.finish(e_rms)
    }
}

/// Every accepted fit keeps `dim * (n - k - 1)` coefficients: a session of
/// positive degree `k` and dimension `1..=10` whose solver left `n >= k + 1`
/// knots, within its knot buffer and with `dim` segments of `n` slots in its
/// coefficient buffer, is always accepted by `finish` and `conclude` (on a
/// normal return), as a curve of `n` knots and `dim * (n - k - 1)`
/// coefficients.
pub proof fn lemma_accepted_fit_shape<T: Copy>(s: FitSession<T>)
    requires
        s.k >= 1,
        1 <= s.dim <= 10,
        s.k + 1 <= s.n <= s.t@.len(),
        s.n * s.dim <= s.c@.len(),
    ensures
        s.n >= 0,
        raw_fault(s.k as int, s.dim as int, s.n as int, s.t@.len() as int, s.c@.len() as int)
            is None,
{
}

} // verus!
