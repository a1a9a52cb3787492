//! Integer core of the per-column transform. Every time step of a column
//! contributes the same phase rotation, so the coefficient of column `n` at
//! frequency `f` is `(k / T) * (cos 2πf, sin 2πf)`, where `k` is the number of
//! steps at which the column is active. This module counts `k`.
use crate::grid::cells;
use crate::rule::is_bit;
use vstd::prelude::*;

verus! {

/// Sum of column `n` over the first `t` rows of `g`.
pub open spec fn column_sum(g: Seq<Seq<usize>>, n: int, t: nat) -> int
    decreases t,
{
    if t == 0 {
        0
    } else {
        column_sum(g, n, (t - 1) as nat) + g[t - 1][n]
    }
}

/// Column `n` exists in every row of `x`, and holds only 0 and 1.
pub open spec fn has_bit_column(x: Seq<Vec<usize>>, n: int) -> bool {
    forall|m: int| 0 <= m < x.len() ==> n < (#[trigger] x[m])@.len() && is_bit(x[m]@[n])
}

/// Number of time steps at which column `n` of the grid is active.
pub fn column_activity(x: &Vec<Vec<usize>>, n: usize) -> (k: usize)
    requires
        has_bit_column(x@, n as int),
    ensures
        k == column_sum(cells(x@), n as int, x@.len() as nat),
        k <= x@.len(),
{
    let t = x.len();
    let mut k: usize = 0;
    let mut j: usize = 0;
    while j < t
        invariant
            t == x@.len(),
            j <= t,
            has_bit_column(x@, n as int),
            k == column_sum(cells(x@), n as int, j as nat),
            k <= j,
        decreases t - j,
    {
        assert(cells(x@)[j as int] == x@[j as int]@);
        k = k + x[j][n];
        j = j + 1;
    }
    k
}

/// Activity count of every column: entry `i` is the number of time steps
/// at which column `i` is active.
pub fn column_activities(x: &Vec<Vec<usize>>, n: usize) -> (r: Vec<usize>)
    requires
        forall|i: int| 0 <= i < n ==> has_bit_column(x@, i),
    ensures
        r@.len() == n,
        forall|i: int| 0 <= i < n ==> #[trigger] r@[i] == column_sum(cells(x@), i, x@.len() as nat),
        forall|i: int| 0 <= i < n ==> #[trigger] r@[i] <= x@.len(),
{
    let mut r: Vec<usize> = Vec::new();
    let mut i: usize = 0;
    while i < n
        invariant
            i <= n,
            forall|c: int| 0 <= c < n ==> has_bit_column(x@, c),
            r@.len() == i,
            forall|c: int| 0 <= c < i ==> #[trigger] r@[c] == column_sum(cells(x@), c, x@.len() as nat),
            forall|c: int| 0 <= c < i ==> #[trigger] r@[c] <= x@.len(),
        decreases n - i,
    {
        let k = column_activity(x, i);
        r.push(k);
        i = i + 1;
    }
    r
}

} // verus!
