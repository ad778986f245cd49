//! Closed-form buffer sizes that the solver's three fitting routines demand.
//!
//! An undersized buffer makes the solver fail or write out of bounds, so every
//! size here is stated exactly. The solver counts in 32-bit integers: a size
//! beyond `i32::MAX` is reported instead of being handed on.

use vstd::prelude::*;

verus! {

/// The lengths of the buffers handed to one fitting routine.
#[derive(Debug, Clone, Copy, PartialEq, Eq, Structural)]
pub struct BufferSizes {
    /// Capacity of the knot buffer, and length of the integer workspace.
    pub nest: usize,
    /// Length of the floating-point workspace.
    pub lwrk: usize,
    /// Length of the coefficient buffer.
    pub nc: usize,
    /// Length of the buffer for the constrained end-point polynomial (zero if unused).
    pub np: usize,
    /// Length of the flattened coordinate arrays (`dim * m`).
    pub mx: usize,
}

/// Knot capacity of a scalar fit of degree `k` to `m` samples.
pub open spec fn curve_nest(m: int, k: int) -> int {
    m + k + 1
}

/// Workspace length of a scalar fit.
pub open spec fn curve_lwrk(m: int, k: int) -> int {
    m * (k + 1) + curve_nest(m, k) * (7 + 3 * k)
}

/// Knot capacity of an open parametric fit.
pub open spec fn parametric_nest(m: int, k: int) -> int {
    m + k + 1 + 2 * (k - 1)
}

/// Workspace length of an open parametric fit of dimension `dim`.
pub open spec fn parametric_lwrk(m: int, k: int, dim: int) -> int {
    m * (k + 1) + parametric_nest(m, k) * (6 + dim + 3 * k)
}

/// Knot capacity of a closed parametric fit.
pub open spec fn closed_nest(m: int, k: int) -> int {
    m + 2 * k
}

/// Workspace length of a closed parametric fit of dimension `dim`.
pub open spec fn closed_lwrk(m: int, k: int, dim: int) -> int {
    m * (k + 1) + closed_nest(m, k) * (7 + dim + 5 * k)
}

/// The sizes of a scalar fit.
pub open spec fn curve_sizes_spec(m: int, k: int, s: BufferSizes) -> bool {
    &&& s.nest == curve_nest(m, k)
    &&& s.lwrk == curve_lwrk(m, k)
    &&& s.nc == curve_nest(m, k)
    &&& s.np == 0
    &&& s.mx == m
}

/// The sizes of an open parametric fit.
pub open spec fn parametric_sizes_spec(m: int, k: int, dim: int, s: BufferSizes) -> bool {
    &&& s.nest == parametric_nest(m, k)
    &&& s.lwrk == parametric_lwrk(m, k, dim)
    &&& s.nc == parametric_nest(m, k) * dim
    &&& s.np == 2 * (k + 1) * dim
    &&& s.mx == m * dim
}

/// The sizes of a closed parametric fit.
pub open spec fn closed_sizes_spec(m: int, k: int, dim: int, s: BufferSizes) -> bool {
    &&& s.nest == closed_nest(m, k)
    &&& s.lwrk == closed_lwrk(m, k, dim)
    &&& s.nc == closed_nest(m, k) * dim
    &&& s.np == 0
    &&& s.mx == m * dim
}

/// Whether a size can be handed to the solver, which counts in `i32`.
pub open spec fn fits(x: int) -> bool {
    0 <= x <= i32::MAX
}

/// `p * q + r * s`, or `None` where it does not fit.
fn mul_add(p: usize, q: usize, r: usize, s: usize) -> (o: Option<usize>)
    ensures
        o is Some <==> p * q + r * s <= usize::MAX,
        o is Some ==> o->0 == p * q + r * s,
{
    proof {
        assert(p * q >= 0 && r * s >= 0) by (nonlinear_arith);
    }
    match (p.checked_mul(q), r.checked_mul(s)) {
        (Some(a), Some(b)) => a.checked_add(b),
        _ => None,
    }
}

/// Buffer sizes for a scalar fit `y(x)` of degree `k` to `m` samples.
///
/// `nest = m + k + 1` and `lwrk = m (k + 1) + nest (7 + 3k)`; the coefficient
/// buffer holds `nest` values. `None` exactly where `lwrk`, the largest of
/// them, does not fit the solver's integers.
pub fn curve_sizes(m: usize, k: usize) -> (r: Option<BufferSizes>)
    ensures
        r is Some <==> fits(curve_lwrk(m as int, k as int)),
        r is Some ==> curve_sizes_spec(m as int, k as int, r->0),
{
    if m > i32::MAX as usize || k > i32::MAX as usize {
        proof {
            assert(m * (k + 1) >= 0) by (nonlinear_arith);
            assert(curve_nest(m as int, k as int) * (7 + 3 * k) >= curve_nest(m as int, k as int))
                by (nonlinear_arith)
                requires
                    curve_nest(m as int, k as int) >= 1,
                    k >= 0,
            ;
        }
        return None;
    }
    let nest = m + k + 1;
    if k > (usize::MAX - 7) / 3 {
        proof {
            assert(nest * (7 + 3 * k) >= 7 + 3 * k) by (nonlinear_arith)
                requires
                    nest >= 1,
                    k >= 0,
            ;
            assert(m * (k + 1) >= 0) by (nonlinear_arith);
        }
        return None;
    }
    let lwrk = match mul_add(m, k + 1, nest, 7 + 3 * k) {
        Some(w) => w,
        None => return None,
    };
    if lwrk > i32::MAX as usize {
        return None;
    }
    Some(BufferSizes { nest, lwrk, nc: nest, np: 0, mx: m })
}

/// Whether `k` and `dim` are a degree and a dimension that the parametric
/// routines take.
pub open spec fn parametric_shape(k: int, dim: int) -> bool {
    (k == 1 || k == 3 || k == 5) && 1 <= dim <= 10
}

/// Buffer sizes for an open parametric fit of degree `k` and dimension `dim`
/// to `m` points.
///
/// `nest = m + k + 1 + 2 (k - 1)`, `lwrk = m (k + 1) + nest (6 + dim + 3k)`,
/// `nc = nest * dim`, `np = 2 (k + 1) dim` and `mx = m * dim`. `None` exactly
/// where `lwrk`, the largest of them, does not fit the solver's integers.
pub fn parametric_sizes(m: usize, k: usize, dim: usize) -> (r: Option<BufferSizes>)
    requires
        parametric_shape(k as int, dim as int),
    ensures
        r is Some <==> fits(parametric_lwrk(m as int, k as int, dim as int)),
        r is Some ==> parametric_sizes_spec(m as int, k as int, dim as int, r->0),
{
    let w: usize = 6 + dim + 3 * k;
    let nest = match m.checked_add(3 * k - 1) {
        Some(n) => n,
        None => {
            proof {
                assert(m * (k + 1) + (m + 3 * k - 1) * w > usize::MAX) by (nonlinear_arith)
                    requires
                        m + 3 * k - 1 > usize::MAX,
                        w >= 1,
                        k >= 1,
                ;
            }
            return None;
        },
    };
    let lwrk = match mul_add(m, k + 1, nest, w) {
        Some(v) => v,
        None => return None,
    };
    proof {
        assert(nest * dim <= lwrk && m * dim <= lwrk) by (nonlinear_arith)
            requires
                lwrk == m * (k + 1) + nest * w,
                w >= dim,
                dim >= 1,
                m <= nest,
                k >= 1,
        ;
        assert(2 * (k + 1) * dim <= 120) by (nonlinear_arith)
            requires
                k <= 5,
                dim <= 10,
        ;
    }
    if lwrk > i32::MAX as usize {
        return None;
    }
    Some(BufferSizes { nest, lwrk, nc: nest * dim, np: 2 * (k + 1) * dim, mx: m * dim })
}

/// Buffer sizes for a closed parametric fit of degree `k` and dimension `dim`
/// to `m` points.
///
/// `nest = m + 2k`, `lwrk = m (k + 1) + nest (7 + dim + 5k)`,
/// `nc = nest * dim` and `mx = m * dim`. `None` exactly where `lwrk`, the
/// largest of them, does not fit the solver's integers.
pub fn closed_sizes(m: usize, k: usize, dim: usize) -> (r: Option<BufferSizes>)
    requires
        parametric_shape(k as int, dim as int),
    ensures
        r is Some <==> fits(closed_lwrk(m as int, k as int, dim as int)),
        r is Some ==> closed_sizes_spec(m as int, k as int, dim as int, r->0),
{
    let w: usize = 7 + dim + 5 * k;
    let nest = match m.checked_add(2 * k) {
        Some(n) => n,
        None => {
            proof {
                assert(m * (k + 1) + (m + 2 * k) * w > usize::MAX) by (nonlinear_arith)
                    requires
                        m + 2 * k > usize::MAX,
                        w >= 1,
                        k >= 1,
                ;
            }
            return None;
        },
    };
    let lwrk = match mul_add(m, k + 1, nest, w) {
        Some(v) => v,
        None => return None,
    };
    proof {
        assert(nest * dim <= lwrk && m * dim <= lwrk) by (nonlinear_arith)
            requires
                lwrk == m * (k + 1) + nest * w,
                w >= dim,
                dim >= 1,
                m <= nest,
                k >= 1,
        ;
    }
    if lwrk > i32::MAX as usize {
        return None;
    }
    Some(BufferSizes { nest, lwrk, nc: nest * dim, np: 0, mx: m * dim })
}

} // verus!
