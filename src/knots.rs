//! Fixed knot vectors for least-squares fits on given knots.

use vstd::prelude::*;

use crate::error::{DierckxError, SPACING_TOO_LARGE};

verus! {

/// The knot vector of degree `k` with interior knots `grid`: `k + 1`
/// boundary knots in front of it and `k + 1` behind it.
///
/// The solver sets the boundary knots to the ends of the data; they are
/// written here as copies of the outermost grid knots, so that every grid
/// knot stays an interior knot of the fit.
pub open spec fn clamped<T>(grid: Seq<T>, k: nat) -> Seq<T> {
    Seq::new(k + 1, |_i: int| grid[0]) + grid + Seq::new(k + 1, |_i: int| grid.last())
}

/// The knot vector of a cardinal fit of degree `k` whose interior knots are
/// the uniform grid `grid`: the multiples of the chosen spacing that lie
/// strictly inside the data.
///
/// A grid of fewer than two knots spans no interval of the spacing: the
/// spacing is too large, and the request is refused.
pub fn cardinal_knots<T: Copy>(grid: &Vec<T>, k: usize) -> (r: Result<Vec<T>, DierckxError>)
    ensures
        r is Ok <==> grid@.len() >= 2 && grid@.len() + 2 * (k + 1) <= usize::MAX,
        r is Err ==> r->Err_0.code_spec() == SPACING_TOO_LARGE,
        r is Ok ==> r->Ok_0@ == clamped(grid@, k as nat),
        r is Ok ==> r->Ok_0@.len() == grid@.len() + 2 * (k + 1),
{
    let len = grid.len();
    if len < 2 || k >= (usize::MAX - len) / 2 {
        return Err(DierckxError::new(SPACING_TOO_LARGE));
    }
    let first = grid[0];
    let last = grid[len - 1];
    let mut r: Vec<T> = Vec::new();
    let mut i: usize = 0;
    while i <= k
        invariant
            0 <= i <= k + 1,
            k < usize::MAX,
            r@ == Seq::new(i as nat, |_j: int| first),
        decreases k + 1 - i,
    {
        r.push(first);
        proof {
            assert(r@ =~= Seq::new((i + 1) as nat, |_j: int| first));
        }
        i = i + 1;
    }
    let mut j: usize = 0;
    while j < len
        invariant
            0 <= j <= len,
            len == grid@.len(),
            r@ == Seq::new((k + 1) as nat, |_j: int| first) + grid@.subrange(0, j as int),
        decreases len - j,
    {
        r.push(grid[j]);
        proof {
            assert(r@ =~= Seq::new((k + 1) as nat, |_j: int| first) + grid@.subrange(0, j + 1));
        }
        j = j + 1;
    }
    proof {
        assert(grid@.subrange(0, len as int) =~= grid@);
    }
    let mut i: usize = 0;
    while i <= k
        invariant
            0 <= i <= k + 1,
            k < usize::MAX,
            len == grid@.len(),
            r@ == Seq::new((k + 1) as nat, |_j: int| first) + grid@ + Seq::new(
                i as nat,
                |_j: int| last,
            ),
        decreases k + 1 - i,
    {
        r.push(last);
        proof {
            assert(r@ =~= Seq::new((k + 1) as nat, |_j: int| first) + grid@ + Seq::new(
                (i + 1) as nat,
                |_j: int| last,
            ));
        }
        i = i + 1;
    }
    proof {
        assert(r@ =~= clamped(grid@, k as nat));
    }
    Ok(r)
}

} // verus!
