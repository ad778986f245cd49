//! Fit requests: the samples, weights and end-point constraints of one fit,
//! validated as they are given, together with the session whose buffers the
//! solver will fill.
//!
//! The element type `T` is the solver's number type; `T::from(0)` and
//! `T::from(1)` fill fresh buffers and default weights.

use vstd::prelude::*;
use vstd::std_specs::convert::FromSpec;

use crate::error::DierckxError;
use crate::request::{
    check_closed, check_curve, check_parametric, check_weights, closed_fault, constraint_order,
    curve_fault, flatten_constraints, weights_fault, max_constraint_depth, parametric_fault,
};
use crate::session::{filled, FitSession};
use crate::sizing::{
    closed_lwrk, closed_sizes_spec, curve_lwrk, curve_sizes_spec, fits, parametric_lwrk,
    parametric_sizes_spec,
};

verus! {

/// Whether `w` holds `m` unit weights, as far as `T` states what `T::from(1)` is.
pub open spec fn unit_weights<T: From<u8>>(w: Seq<T>, m: nat) -> bool {
    &&& w.len() == m
    &&& <T as FromSpec<u8>>::obeys_from_spec() ==> forall|i: int|
        0 <= i < m ==> #[trigger] w[i] == <T as FromSpec<u8>>::from_spec(1u8)
}

/// Unit weights for `m` samples.
fn unit_weights_for<T: Copy + From<u8>>(m: usize) -> (r: Vec<T>)
    ensures
        unit_weights(r@, m as nat),
{
    let one = T::from(1u8);
    filled(one, m)
}

/// A request to fit an open parametric curve of degree `K` in `N` dimensions
/// to points `xn` (point after point) at parameter values `u`, with optional
/// weights and derivative constraints at both ends.
pub struct ParameterSplineCurveFit<T, const K: usize, const N: usize> {
    u: Vec<T>,
    xn: Vec<T>,
    w: Vec<T>,
    xb: Vec<T>,
    xe: Vec<T>,
    ib: usize,
    ie: usize,
    session: FitSession<T>,
}

impl<T: Copy + From<u8>, const K: usize, const N: usize> ParameterSplineCurveFit<T, K, N> {
    /// The parameter values.
    pub closed spec fn u_spec(&self) -> Seq<T> {
        self.u@
    }

    /// The coordinates, point after point.
    pub closed spec fn xn_spec(&self) -> Seq<T> {
        self.xn@
    }

    /// The weights.
    pub closed spec fn w_spec(&self) -> Seq<T> {
        self.w@
    }

    /// The flattened derivative constraints at the first point.
    pub closed spec fn xb_spec(&self) -> Seq<T> {
        self.xb@
    }

    /// The flattened derivative constraints at the last point.
    pub closed spec fn xe_spec(&self) -> Seq<T> {
        self.xe@
    }

    /// The constraint order at the first point.
    pub closed spec fn ib_spec(&self) -> nat {
        self.ib as nat
    }

    /// The constraint order at the last point.
    pub closed spec fn ie_spec(&self) -> nat {
        self.ie as nat
    }

    /// The buffers of the fit.
    pub closed spec fn session_spec(&self) -> FitSession<T> {
        self.session
    }

    /// A request for the points `xn` at parameter values `u`, with unit
    /// weights and no end constraints.
    ///
    /// Refused, in this order, for a degree other than 1, 3 or 5, a dimension
    /// outside `1..=10`, fewer than two parameter values, or a coordinate array
    /// that does not hold `N` values per parameter value; refused as out of
    /// storage where the workspace would not fit the solver's integers.
    pub fn new(u: Vec<T>, xn: Vec<T>) -> (r: Result<Self, DierckxError>)
        ensures
            r is Ok <==> parametric_fault(K as int, N as int, u@.len() as int, xn@.len() as int)
                is None && fits(parametric_lwrk(u@.len() as int, K as int, N as int)),
            r is Err ==> r->Err_0.code_spec() == match parametric_fault(K as int, N as int, u@.len() as int, xn@.len() as int) {
                Some(e) => e,
                None => crate::error::OUT_OF_STORAGE,
            },
            r is Ok ==> {
                let f = r->Ok_0;
                &&& f.u_spec() == u@
                &&& f.xn_spec() == xn@
                &&& unit_weights(f.w_spec(), u@.len())
                &&& f.xb_spec().len() == 0 && f.xe_spec().len() == 0
                &&& f.ib_spec() == 0 && f.ie_spec() == 0
                &&& f.session_spec().buffers_sized()
                &&& parametric_sizes_spec(u@.len() as int, K as int, N as int, f.session_spec().sizes)
                &&& f.session_spec().k == K && f.session_spec().dim == N && f.session_spec().m == u@.len()
            },
    {
        let m = u.len();
        let sizes = check_parametric(K, N, m, xn.len())?;
        let w = unit_weights_for(m);
        let session = FitSession::new(sizes, K, N, m, T::from(0u8));
        Ok(ParameterSplineCurveFit {
            u,
            xn,
            w,
            xb: Vec::new(),
            xe: Vec::new(),
            ib: 0,
            ie: 0,
            session,
        })
    }

    /// The parameter values.
    pub fn u(&self) -> (r: &Vec<T>)
        ensures
            r@ == self.u_spec(),
    {
        &self.u
    }

    /// The coordinates, point after point.
    pub fn xn(&self) -> (r: &Vec<T>)
        ensures
            r@ == self.xn_spec(),
    {
        &self.xn
    }

    /// The weights.
    pub fn w(&self) -> (r: &Vec<T>)
        ensures
            r@ == self.w_spec(),
    {
        &self.w
    }

    /// The flattened derivative constraints at the first point.
    pub fn xb(&self) -> (r: &Vec<T>)
        ensures
            r@ == self.xb_spec(),
    {
        &self.xb
    }

    /// The flattened derivative constraints at the last point.
    pub fn xe(&self) -> (r: &Vec<T>)
        ensures
            r@ == self.xe_spec(),
    {
        &self.xe
    }

    /// The constraint order at the first point.
    pub fn ib(&self) -> (r: usize)
        ensures
            r == self.ib_spec(),
    {
        self.ib
    }

    /// The constraint order at the last point.
    pub fn ie(&self) -> (r: usize)
        ensures
            r == self.ie_spec(),
    {
        self.ie
    }

    /// The buffers of the fit.
    pub fn session(&self) -> (r: &FitSession<T>)
        ensures
            *r == self.session_spec(),
    {
        &self.session
    }

    /// The buffers of the fit, for the solver to fill.
    pub fn session_mut(&mut self) -> (r: &mut FitSession<T>)
        ensures
            *r == old(self).session_spec(),
            final(self).session_spec() == *final(r),
            final(self).u_spec() == old(self).u_spec(),
            final(self).xn_spec() == old(self).xn_spec(),
            final(self).w_spec() == old(self).w_spec(),
            final(self).xb_spec() == old(self).xb_spec(),
            final(self).xe_spec() == old(self).xe_spec(),
            final(self).ib_spec() == old(self).ib_spec(),
            final(self).ie_spec() == old(self).ie_spec(),
    {
        &mut self.session
    }

    /// Gives up the request, keeping the buffers of the fit.
    pub fn into_session(self) -> (r: FitSession<T>)
        ensures
            r == self.session_spec(),
    {
        self.session
    }

    /// Replaces the weights. `all_positive` tells whether every weight is
    /// positive; refused unless there is one weight per parameter value and
    /// all are positive.
    pub fn weights(self, weights: Vec<T>, all_positive: bool) -> (r: Result<Self, DierckxError>)
        ensures
            r is Ok <==> weights_fault(weights@.len() as int, self.u_spec().len() as int, all_positive)
                is None,
            r is Err ==> weights_fault(weights@.len() as int, self.u_spec().len() as int, all_positive)
                == Some(r->Err_0.code_spec()),
            r is Ok ==> {
                let f = r->Ok_0;
                &&& f.w_spec() == weights@
                &&& f.u_spec() == self.u_spec() && f.xn_spec() == self.xn_spec()
                &&& f.xb_spec() == self.xb_spec() && f.xe_spec() == self.xe_spec()
                &&& f.ib_spec() == self.ib_spec() && f.ie_spec() == self.ie_spec()
                &&& f.session_spec() == self.session_spec()
            },
    {
        check_weights(weights.len(), self.u.len(), all_positive)?;
        let mut f = self;
        f.w = weights;
        Ok(f)
    }

    /// Constrains the curve at the first point with derivative vectors of
    /// orders `0, 1, ..., D - 1`; the constraint order is `D - 1`.
    ///
    /// Refused where `D` exceeds `(K + 1) / 2 + 1`.
    pub fn begin_constraints<const D: usize>(self, ub: [[T; N]; D]) -> (r: Result<
        Self,
        DierckxError,
    >)
        ensures
            r is Ok <==> D <= max_constraint_depth(K as int),
            r is Err ==> r->Err_0.code_spec() == crate::error::TOO_MANY_CONSTRAINTS,
            r is Ok ==> {
                let f = r->Ok_0;
                &&& f.xb_spec().len() == D * N
                &&& forall|l: int, j: int|
                    0 <= l < D && 0 <= j < N ==> #[trigger] f.xb_spec()[l * N + j] == ub@[l]@[j]
                &&& f.ib_spec() == if D == 0 {
                    0
                } else {
                    D - 1
                }
                &&& f.u_spec() == self.u_spec() && f.xn_spec() == self.xn_spec()
                &&& f.w_spec() == self.w_spec()
                &&& f.xe_spec() == self.xe_spec() && f.ie_spec() == self.ie_spec()
                &&& f.session_spec() == self.session_spec()
            },
    {
        let order = constraint_order(D, K)?;
        let mut f = self;
        f.xb = flatten_constraints(&ub);
        f.ib = order;
        Ok(f)
    }

    /// Constrains the curve at the last point with derivative vectors of
    /// orders `0, 1, ..., D - 1`; the constraint order is `D - 1`.
    ///
    /// Refused where `D` exceeds `(K + 1) / 2 + 1`.
    pub fn end_constraints<const D: usize>(self, ue: [[T; N]; D]) -> (r: Result<
        Self,
        DierckxError,
    >)
        ensures
            r is Ok <==> D <= max_constraint_depth(K as int),
            r is Err ==> r->Err_0.code_spec() == crate::error::TOO_MANY_CONSTRAINTS,
            r is Ok ==> {
                let f = r->Ok_0;
                &&& f.xe_spec().len() == D * N
                &&& forall|l: int, j: int|
                    0 <= l < D && 0 <= j < N ==> #[trigger] f.xe_spec()[l * N + j] == ue@[l]@[j]
                &&& f.ie_spec() == if D == 0 {
                    0
                } else {
                    D - 1
                }
                &&& f.u_spec() == self.u_spec() && f.xn_spec() == self.xn_spec()
                &&& f.w_spec() == self.w_spec()
                &&& f.xb_spec() == self.xb_spec() && f.ib_spec() == self.ib_spec()
                &&& f.session_spec() == self.session_spec()
            },
    {
        let order = constraint_order(D, K)?;
        let mut f = self;
        f.xe = flatten_constraints(&ue);
        f.ie = order;
        Ok(f)
    }
}

/// A request to fit a scalar curve `y(x)` of degree `K` to samples at
/// increasing abscissas `x`, with optional weights.
pub struct CurveSplineFit<T, const K: usize> {
    x: Vec<T>,
    y: Vec<T>,
    w: Vec<T>,
    session: FitSession<T>,
}

impl<T: Copy + From<u8>, const K: usize> CurveSplineFit<T, K> {
    /// The abscissas.
    pub closed spec fn x_spec(&self) -> Seq<T> {
        self.x@
    }

    /// The ordinates.
    pub closed spec fn y_spec(&self) -> Seq<T> {
        self.y@
    }

    /// The weights.
    pub closed spec fn w_spec(&self) -> Seq<T> {
        self.w@
    }

    /// The buffers of the fit.
    pub closed spec fn session_spec(&self) -> FitSession<T> {
        self.session
    }

    /// A request for the samples `(x[i], y[i])`, with unit weights.
    ///
    /// Refused for a degree outside `1..=5`, fewer than two samples, or for `x` and `y` of different
    /// lengths; refused as out of storage where the workspace would not fit
    /// the solver's integers.
    pub fn new(x: Vec<T>, y: Vec<T>) -> (r: Result<Self, DierckxError>)
        ensures
            r is Ok <==> curve_fault(K as int, x@.len() as int, y@.len() as int) is None && fits(
                curve_lwrk(x@.len() as int, K as int),
            ),
            r is Err ==> r->Err_0.code_spec() == match curve_fault(K as int, x@.len() as int, y@.len() as int) {
                Some(e) => e,
                None => crate::error::OUT_OF_STORAGE,
            },
            r is Ok ==> {
                let f = r->Ok_0;
                &&& f.x_spec() == x@
                &&& f.y_spec() == y@
                &&& unit_weights(f.w_spec(), x@.len())
                &&& f.session_spec().buffers_sized()
                &&& curve_sizes_spec(x@.len() as int, K as int, f.session_spec().sizes)
                &&& f.session_spec().k == K && f.session_spec().dim == 1
                &&& f.session_spec().m == x@.len()
            },
    {
        let m = x.len();
        let sizes = check_curve(K, m, y.len())?;
        let w = unit_weights_for(m);
        let session = FitSession::new(sizes, K, 1, m, T::from(0u8));
        Ok(CurveSplineFit { x, y, w, session })
    }

    /// The abscissas.
    pub fn x(&self) -> (r: &Vec<T>)
        ensures
            r@ == self.x_spec(),
    {
        &self.x
    }

    /// The ordinates.
    pub fn y(&self) -> (r: &Vec<T>)
        ensures
            r@ == self.y_spec(),
    {
        &self.y
    }

    /// The weights.
    pub fn w(&self) -> (r: &Vec<T>)
        ensures
            r@ == self.w_spec(),
    {
        &self.w
    }

    /// The buffers of the fit.
    pub fn session(&self) -> (r: &FitSession<T>)
        ensures
            *r == self.session_spec(),
    {
        &self.session
    }

    /// The buffers of the fit, for the solver to fill.
    pub fn session_mut(&mut self) -> (r: &mut FitSession<T>)
        ensures
            *r == old(self).session_spec(),
            final(self).session_spec() == *final(r),
            final(self).x_spec() == old(self).x_spec(),
            final(self).y_spec() == old(self).y_spec(),
            final(self).w_spec() == old(self).w_spec(),
    {
        &mut self.session
    }

    /// Gives up the request, keeping the buffers of the fit.
    pub fn into_session(self) -> (r: FitSession<T>)
        ensures
            r == self.session_spec(),
    {
        self.session
    }

    /// Replaces the weights. `all_positive` tells whether every weight is
    /// positive; refused unless there is one weight per sample and all are
    /// positive.
    pub fn set_weights(self, weights: Vec<T>, all_positive: bool) -> (r: Result<Self, DierckxError>)
        ensures
            r is Ok <==> weights_fault(weights@.len() as int, self.x_spec().len() as int, all_positive)
                is None,
            r is Err ==> weights_fault(weights@.len() as int, self.x_spec().len() as int, all_positive)
                == Some(r->Err_0.code_spec()),
            r is Ok ==> {
                let f = r->Ok_0;
                &&& f.w_spec() == weights@
                &&& f.x_spec() == self.x_spec() && f.y_spec() == self.y_spec()
                &&& f.session_spec() == self.session_spec()
            },
    {
        check_weights(weights.len(), self.x.len(), all_positive)?;
        let mut f = self;
        f.w = weights;
        Ok(f)
    }
}

/// A request to fit a closed curve of degree `K` in `N` dimensions to points
/// `xn` (point after point) at parameter values `u`, whose first and last
/// points coincide, with optional weights.
pub struct ClosedParameterSplineCurveFit<T, const K: usize, const N: usize> {
    u: Vec<T>,
    xn: Vec<T>,
    w: Vec<T>,
    session: FitSession<T>,
}

impl<T: Copy + From<u8>, const K: usize, const N: usize> ClosedParameterSplineCurveFit<T, K, N> {
    /// The parameter values.
    pub closed spec fn u_spec(&self) -> Seq<T> {
        self.u@
    }

    /// The coordinates, point after point.
    pub closed spec fn xn_spec(&self) -> Seq<T> {
        self.xn@
    }

    /// The weights.
    pub closed spec fn w_spec(&self) -> Seq<T> {
        self.w@
    }

    /// The buffers of the fit.
    pub closed spec fn session_spec(&self) -> FitSession<T> {
        self.session
    }

    /// A request for the points `xn` at parameter values `u`, with unit
    /// weights. `ends_meet` tells whether the first and last points coincide
    /// in every dimension.
    ///
    /// Refused, in this order, for a degree other than 1, 3 or 5, a dimension
    /// outside `1..=10`, fewer than two parameter values, a coordinate array
    /// that does not hold `N` values per parameter value, or ends that do not
    /// meet; refused as out of storage where the workspace would not fit the
    /// solver's integers. A request whose ends do not meet never gets buffers
    /// for the solver.
    pub fn new(u: Vec<T>, xn: Vec<T>, ends_meet: bool) -> (r: Result<Self, DierckxError>)
        ensures
            r is Ok <==> closed_fault(
                K as int,
                N as int,
                u@.len() as int,
                xn@.len() as int,
                ends_meet,
            ) is None && fits(closed_lwrk(u@.len() as int, K as int, N as int)),
            r is Err ==> r->Err_0.code_spec() == match closed_fault(K as int, N as int, u@.len() as int, xn@.len() as int, ends_meet) {
                Some(e) => e,
                None => crate::error::OUT_OF_STORAGE,
            },
            !ends_meet ==> r is Err,
            r is Ok ==> {
                let f = r->Ok_0;
                &&& f.u_spec() == u@
                &&& f.xn_spec() == xn@
                &&& unit_weights(f.w_spec(), u@.len())
                &&& f.session_spec().buffers_sized()
                &&& closed_sizes_spec(u@.len() as int, K as int, N as int, f.session_spec().sizes)
                &&& f.session_spec().k == K && f.session_spec().dim == N
                &&& f.session_spec().m == u@.len()
            },
    {
        let m = u.len();
        let sizes = check_closed(K, N, m, xn.len(), ends_meet)?;
        let w = unit_weights_for(m);
        let session = FitSession::new(sizes, K, N, m, T::from(0u8));
        Ok(ClosedParameterSplineCurveFit { u, xn, w, session })
    }

    /// The parameter values.
    pub fn u(&self) -> (r: &Vec<T>)
        ensures
            r@ == self.u_spec(),
    {
        &self.u
    }

    /// The coordinates, point after point.
    pub fn xn(&self) -> (r: &Vec<T>)
        ensures
            r@ == self.xn_spec(),
    {
        &self.xn
    }

    /// The weights.
    pub fn w(&self) -> (r: &Vec<T>)
        ensures
            r@ == self.w_spec(),
    {
        &self.w
    }

    /// The buffers of the fit.
    pub fn session(&self) -> (r: &FitSession<T>)
        ensures
            *r == self.session_spec(),
    {
        &self.session
    }

    /// The buffers of the fit, for the solver to fill.
    pub fn session_mut(&mut self) -> (r: &mut FitSession<T>)
        ensures
            *r == old(self).session_spec(),
            final(self).session_spec() == *final(r),
            final(self).u_spec() == old(self).u_spec(),
            final(self).xn_spec() == old(self).xn_spec(),
            final(self).w_spec() == old(self).w_spec(),
    {
        &mut self.session
    }

    /// Gives up the request, keeping the buffers of the fit.
    pub fn into_session(self) -> (r: FitSession<T>)
        ensures
            r == self.session_spec(),
    {
        self.session
    }

    /// Replaces the weights. `all_positive` tells whether every weight is
    /// positive; refused unless there is one weight per parameter value and
    /// all are positive.
    pub fn weights(self, weights: Vec<T>, all_positive: bool) -> (r: Result<Self, DierckxError>)
        ensures
            r is Ok <==> weights_fault(weights@.len() as int, self.u_spec().len() as int, all_positive)
                is None,
            r is Err ==> weights_fault(weights@.len() as int, self.u_spec().len() as int, all_positive)
                == Some(r->Err_0.code_spec()),
            r is Ok ==> {
                let f = r->Ok_0;
                &&& f.w_spec() == weights@
                &&& f.u_spec() == self.u_spec() && f.xn_spec() == self.xn_spec()
                &&& f.session_spec() == self.session_spec()
            },
    {
        check_weights(weights.len(), self.u.len(), all_positive)?;
        let mut f = self;
        f.w = weights;
        Ok(f)
    }
}

} // verus!
