//! Structural validation of fit requests.
//!
//! Every check here runs before the solver is called; a request that passes
//! comes with the exact buffer sizes that its fit needs.

use vstd::prelude::*;

use crate::error::{
    DierckxError, BAD_COORDINATE_COUNT, BAD_DEGREE, BAD_DIMENSION, BAD_WEIGHT_COUNT, INVALID_INPUT, OPEN_CURVE,
    OUT_OF_STORAGE, TOO_FEW_POINTS, TOO_MANY_CONSTRAINTS,
};
use crate::sizing::{
    closed_lwrk, closed_sizes, curve_lwrk, curve_sizes, fits, parametric_lwrk,
    parametric_sizes, parametric_sizes_spec, closed_sizes_spec, curve_sizes_spec, BufferSizes,
};

verus! {

/// The degrees that the parametric routines take.
pub open spec fn degree_ok(k: int) -> bool {
    k == 1 || k == 3 || k == 5
}

/// The dimensions that the parametric routines take.
pub open spec fn dimension_ok(dim: int) -> bool {
    1 <= dim <= 10
}

/// The first structural fault of an open parametric request, or `None`:
/// degree, then dimension, then point count, then coordinate count.
pub open spec fn parametric_fault(k: int, dim: int, m: int, coord_len: int) -> Option<i32> {
    if !degree_ok(k) {
        Some(BAD_DEGREE)
    } else if !dimension_ok(dim) {
        Some(BAD_DIMENSION)
    } else if m < 2 {
        Some(TOO_FEW_POINTS)
    } else if coord_len != m * dim {
        Some(BAD_COORDINATE_COUNT)
    } else {
        None
    }
}

/// The first structural fault of a closed request: those of an open one,
/// then end points that do not coincide.
pub open spec fn closed_fault(k: int, dim: int, m: int, coord_len: int, ends_meet: bool) -> Option<
    i32,
> {
    match parametric_fault(k, dim, m, coord_len) {
        Some(e) => Some(e),
        None => if !ends_meet {
            Some(OPEN_CURVE)
        } else {
            None
        },
    }
}

/// The first structural fault of a scalar request `y(x)` of degree `k`: a
/// degree outside `1..=5`, then the sample count, then the ordinate count.
pub open spec fn curve_fault(k: int, m: int, y_len: int) -> Option<i32> {
    if !(1 <= k <= 5) {
        Some(BAD_DEGREE)
    } else if m < 2 {
        Some(TOO_FEW_POINTS)
    } else if y_len != m {
        Some(BAD_COORDINATE_COUNT)
    } else {
        None
    }
}

/// The most derivative vectors (orders `0, 1, ...`) that an end point of a
/// fit of degree `k` may be given.
pub open spec fn max_constraint_depth(k: int) -> int {
    (k + 1) / 2 + 1
}

/// Checks the degree of a parametric fit.
pub fn check_degree(k: usize) -> (r: Result<(), DierckxError>)
    ensures
        r is Ok <==> degree_ok(k as int),
        r is Err ==> r->Err_0.code_spec() == BAD_DEGREE,
{
    if k == 1 || k == 3 || k == 5 {
        Ok(())
    } else {
        Err(DierckxError::new(BAD_DEGREE))
    }
}

/// Checks the dimension of a parametric fit.
pub fn check_dimension(dim: usize) -> (r: Result<(), DierckxError>)
    ensures
        r is Ok <==> dimension_ok(dim as int),
        r is Err ==> r->Err_0.code_spec() == BAD_DIMENSION,
{
    if 1 <= dim && dim <= 10 {
        Ok(())
    } else {
        Err(DierckxError::new(BAD_DIMENSION))
    }
}

/// Validates an open parametric request of degree `k` and dimension `dim`
/// with `m` parameter values and `coord_len` coordinates, and sizes its
/// buffers.
///
/// The error is the first structural fault; a request whose workspace does not
/// fit the solver's integers is refused as out of storage.
pub fn check_parametric(k: usize, dim: usize, m: usize, coord_len: usize) -> (r: Result<
    BufferSizes,
    DierckxError,
>)
    ensures
        r is Ok <==> parametric_fault(k as int, dim as int, m as int, coord_len as int) is None
            && fits(parametric_lwrk(m as int, k as int, dim as int)),
        r is Err ==> r->Err_0.code_spec() == match parametric_fault(
            k as int,
            dim as int,
            m as int,
            coord_len as int,
        ) {
            Some(e) => e,
            None => OUT_OF_STORAGE,
        },
        r is Ok ==> parametric_sizes_spec(m as int, k as int, dim as int, r->Ok_0),
{
    check_degree(k)?;
    check_dimension(dim)?;
    if m < 2 {
        return Err(DierckxError::new(TOO_FEW_POINTS));
    }
    match m.checked_mul(dim) {
        Some(mx) => {
            if coord_len != mx {
                return Err(DierckxError::new(BAD_COORDINATE_COUNT));
            }
        },
        None => return Err(DierckxError::new(BAD_COORDINATE_COUNT)),
    }
    match parametric_sizes(m, k, dim) {
        Some(s) => Ok(s),
        None => Err(DierckxError::new(OUT_OF_STORAGE)),
    }
}

/// Validates a closed parametric request, and sizes its buffers.
///
/// `ends_meet` tells whether the first and last points coincide in every
/// dimension. The error is the first structural fault; a request whose
/// workspace does not fit the solver's integers is refused as out of storage.
pub fn check_closed(k: usize, dim: usize, m: usize, coord_len: usize, ends_meet: bool) -> (r:
    Result<BufferSizes, DierckxError>)
    ensures
        r is Ok <==> closed_fault(k as int, dim as int, m as int, coord_len as int, ends_meet) is None
            && fits(closed_lwrk(m as int, k as int, dim as int)),
        r is Err ==> r->Err_0.code_spec() == match closed_fault(
            k as int,
            dim as int,
            m as int,
            coord_len as int,
            ends_meet,
        ) {
            Some(e) => e,
            None => OUT_OF_STORAGE,
        },
        r is Ok ==> closed_sizes_spec(m as int, k as int, dim as int, r->Ok_0),
        !ends_meet ==> r is Err,
{
    check_degree(k)?;
    check_dimension(dim)?;
    if m < 2 {
        return Err(DierckxError::new(TOO_FEW_POINTS));
    }
    match m.checked_mul(dim) {
        Some(mx) => {
            if coord_len != mx {
                return Err(DierckxError::new(BAD_COORDINATE_COUNT));
            }
        },
        None => return Err(DierckxError::new(BAD_COORDINATE_COUNT)),
    }
    if !ends_meet {
        return Err(DierckxError::new(OPEN_CURVE));
    }
    match closed_sizes(m, k, dim) {
        Some(s) => Ok(s),
        None => Err(DierckxError::new(OUT_OF_STORAGE)),
    }
}

/// Validates a scalar request `y(x)` of degree `k` with `m` abscissas and
/// `y_len` ordinates, and sizes its buffers.
pub fn check_curve(k: usize, m: usize, y_len: usize) -> (r: Result<BufferSizes, DierckxError>)
    ensures
        r is Ok <==> curve_fault(k as int, m as int, y_len as int) is None && fits(
            curve_lwrk(m as int, k as int),
        ),
        r is Err ==> r->Err_0.code_spec() == match curve_fault(k as int, m as int, y_len as int) {
            Some(e) => e,
            None => OUT_OF_STORAGE,
        },
        r is Ok ==> curve_sizes_spec(m as int, k as int, r->Ok_0),
{
    if k < 1 || k > 5 {
        return Err(DierckxError::new(BAD_DEGREE));
    }
    if m < 2 {
        return Err(DierckxError::new(TOO_FEW_POINTS));
    }
    if y_len != m {
        return Err(DierckxError::new(BAD_COORDINATE_COUNT));
    }
    match curve_sizes(m, k) {
        Some(s) => Ok(s),
        None => Err(DierckxError::new(OUT_OF_STORAGE)),
    }
}

/// The fault of a weights array of `w_len` weights for `m` samples, of
/// which all are positive exactly when `all_positive` holds: a count other
/// than `m`, then a weight that is not positive, which the solver would
/// refuse as invalid input.
pub open spec fn weights_fault(w_len: int, m: int, all_positive: bool) -> Option<i32> {
    if w_len != m {
        Some(BAD_WEIGHT_COUNT)
    } else if !all_positive {
        Some(INVALID_INPUT)
    } else {
        None
    }
}

/// Checks that a weights array holds one weight per sample, and that all of
/// them are positive (`all_positive`).
pub fn check_weights(w_len: usize, m: usize, all_positive: bool) -> (r: Result<(), DierckxError>)
    ensures
        r is Ok <==> weights_fault(w_len as int, m as int, all_positive) is None,
        r is Err ==> weights_fault(w_len as int, m as int, all_positive) == Some(
            r->Err_0.code_spec(),
        ),
{
    if w_len != m {
        Err(DierckxError::new(BAD_WEIGHT_COUNT))
    } else if !all_positive {
        Err(DierckxError::new(INVALID_INPUT))
    } else {
        Ok(())
    }
}

/// The constraint order of a stack of `depth` derivative vectors (orders
/// `0, 1, ...`) at an end point of a fit of degree `k`.
///
/// The order is the depth less one; an empty stack constrains nothing and has
/// order zero. A stack deeper than `(k + 1) / 2 + 1` is refused.
pub fn constraint_order(depth: usize, k: usize) -> (r: Result<usize, DierckxError>)
    ensures
        r is Ok <==> depth <= max_constraint_depth(k as int),
        r is Err ==> r->Err_0.code_spec() == TOO_MANY_CONSTRAINTS,
        r is Ok ==> r->Ok_0 == if depth == 0 {
            0
        } else {
            depth - 1
        },
{
    if depth <= k / 2 + k % 2 + 1 {
        Ok(if depth == 0 {
            0
        } else {
            depth - 1
        })
    } else {
        Err(DierckxError::new(TOO_MANY_CONSTRAINTS))
    }
}

/// `a * n + b` indexes row `a`, column `b` of a row-major table of `l` rows of
/// `n` columns.
pub(crate) proof fn lemma_row_index(a: int, b: int, l: int, n: int)
    requires
        0 <= a < l,
        0 <= b < n,
    ensures
        0 <= a * n + b < l * n,
{
    assert(0 <= a * n + b < (a + 1) * n) by (nonlinear_arith)
        requires
            0 <= a,
            0 <= b < n,
    ;
    assert((a + 1) * n <= l * n) by (nonlinear_arith)
        requires
            a + 1 <= l,
            n >= 0,
    ;
}

/// Flattens a stack of derivative vectors, order 0 first, into one array:
/// the `j`-th coordinate of order `l` lands at `l * N + j`.
pub fn flatten_constraints<T: Copy, const N: usize, const D: usize>(stack: &[[T; N]; D]) -> (r:
    Vec<T>)
    ensures
        r@.len() == D * N,
        forall|l: int, j: int|
            0 <= l < D && 0 <= j < N ==> #[trigger] r@[l * N + j] == stack@[l]@[j],
{
    let mut r: Vec<T> = Vec::new();
    let mut l: usize = 0;
    while l < D
        invariant
            0 <= l <= D,
            r@.len() == l * N,
            forall|a: int, j: int|
                0 <= a < l && 0 <= j < N ==> #[trigger] r@[a * N + j] == stack@[a]@[j],
        decreases D - l,
    {
        let row: [T; N] = stack[l];
        let mut j: usize = 0;
        while j < N
            invariant
                0 <= l < D,
                0 <= j <= N,
                row@ == stack@[l as int]@,
                r@.len() == l * N + j,
                forall|a: int, b: int|
                    0 <= a < l && 0 <= b < N ==> #[trigger] r@[a * N + b] == stack@[a]@[b],
                forall|b: int| 0 <= b < j ==> #[trigger] r@[l * N + b] == row@[b],
            decreases N - j,
        {
            let ghost prev = r@;
            r.push(row[j]);
            proof {
                assert forall|a: int, b: int| 0 <= a < l && 0 <= b < N implies #[trigger] r@[a * N
                    + b] == stack@[a]@[b] by {
                    lemma_row_index(a, b, l as int, N as int);
                    assert(r@[a * N + b] == prev[a * N + b]);
                }
                assert(r@[l * N + j] == row@[j as int]);
            }
            j = j + 1;
        }
        proof {
            assert(r@.len() == (l + 1) * N) by (nonlinear_arith)
                requires r@.len() == l * N + N;
        }
        l = l + 1;
    }
    r
}

} // verus!
