//! The space-time grid: row 0 is drawn at random, every later row follows
//! from the one before by the rule, with the two edge columns held at 0.
use crate::coin::coin_flip;
use crate::rule::{eca_rule_result, is_bit, rule_output};
use vstd::prelude::*;

verus! {

/// Every entry of `row` is 0 or 1.
pub open spec fn is_bit_row(row: Seq<usize>) -> bool {
    forall|i: int| 0 <= i < row.len() ==> is_bit(#[trigger] row[i])
}

/// The row that follows `prev`: interior cells by the rule on their
/// neighbourhood, the first and last cell 0 (fixed, not periodic, boundary).
pub open spec fn next_row(prev: Seq<usize>, rule: Seq<usize>) -> Seq<usize> {
    Seq::new(
        prev.len(),
        |i: int|
            if 1 <= i < prev.len() - 1 {
                rule_output(rule, prev[i - 1], prev[i], prev[i + 1])
            } else {
                0
            },
    )
}

/// Row `m` of the grid that starts from `row0`.
pub open spec fn row_at(row0: Seq<usize>, rule: Seq<usize>, m: nat) -> Seq<usize>
    decreases m,
{
    if m == 0 {
        row0
    } else {
        next_row(row_at(row0, rule, (m - 1) as nat), rule)
    }
}

/// The rows of a grid as sequences of cells.
pub open spec fn cells(x: Seq<Vec<usize>>) -> Seq<Seq<usize>> {
    x.map_values(|r: Vec<usize>| r@)
}

/// `g` is the grid of `t` rows that starts from `row0` under `rule`.
pub open spec fn is_grid_of(g: Seq<Seq<usize>>, row0: Seq<usize>, t: nat, rule: Seq<usize>) -> bool {
    g.len() == t && forall|m: int| 0 <= m < t ==> #[trigger] g[m] == row_at(row0, rule, m as nat)
}

/// Every row of the grid keeps the width of row 0; rows after the first
/// hold only 0 and 1.
pub proof fn lemma_row_at(row0: Seq<usize>, rule: Seq<usize>, m: nat)
    ensures
        row_at(row0, rule, m).len() == row0.len(),
        m >= 1 ==> is_bit_row(row_at(row0, rule, m)),
        is_bit_row(row0) ==> is_bit_row(row_at(row0, rule, m)),
    decreases m,
{
    if m > 0 {
        lemma_row_at(row0, rule, (m - 1) as nat);
    }
}

/// Computes the row that follows `prev`.
fn step_row(prev: &Vec<usize>, rule: &Vec<usize>) -> (r: Vec<usize>)
    requires
        is_bit_row(prev@),
        rule@.len() == 8,
    ensures
        r@ == next_row(prev@, rule@),
{
    let n = prev.len();
    let mut r: Vec<usize> = Vec::new();
    let mut i: usize = 0;
    while i < n
        invariant
            n == prev@.len(),
            i <= n,
            is_bit_row(prev@),
            rule@.len() == 8,
            r@.len() == i,
            forall|k: int| 0 <= k < i ==> #[trigger] r@[k] == next_row(prev@, rule@)[k],
        decreases n - i,
    {
        if 1 <= i && i + 1 < n {
            let v = eca_rule_result((prev[i - 1], prev[i], prev[i + 1]), rule.clone());
            r.push(v);
        } else {
            r.push(0);
        }
        i = i + 1;
    }
    assert(r@ =~= next_row(prev@, rule@));
    r
}

/// Builds the grid of `t` rows that starts from `row0`.
pub fn construct_from_row(row0: Vec<usize>, t: usize, rule: &Vec<usize>) -> (x: Vec<Vec<usize>>)
    requires
        row0@.len() >= 1,
        t >= 1,
        is_bit_row(row0@),
        rule@.len() == 8,
    ensures
        is_grid_of(cells(x@), row0@, t as nat, rule@),
        forall|m: int| 0 <= m < t ==> (#[trigger] x@[m])@.len() == row0@.len(),
        forall|m: int, i: int|
            0 <= m < t && 0 <= i < row0@.len() ==> is_bit(#[trigger] x@[m]@[i]),
        forall|m: int|
            1 <= m < t ==> (#[trigger] x@[m])@[0] == 0 && x@[m]@[row0@.len() - 1] == 0,
{
    let ghost g0 = row0@;
    let mut x: Vec<Vec<usize>> = Vec::new();
    x.push(row0);
    let mut m: usize = 1;
    while m < t
        invariant
            1 <= m <= t,
            rule@.len() == 8,
            is_bit_row(g0),
            x@.len() == m,
            forall|k: int| 0 <= k < m ==> (#[trigger] x@[k])@ == row_at(g0, rule@, k as nat),
        decreases t - m,
    {
        proof {
            lemma_row_at(g0, rule@, (m - 1) as nat);
        }
        let next = step_row(&x[m - 1], rule);
        x.push(next);
        m = m + 1;
    }
    assert forall|k: int| 0 <= k < t implies #[trigger] cells(x@)[k] == row_at(g0, rule@, k as nat) by {
    }
    assert forall|k: int| 0 <= k < t implies (#[trigger] x@[k])@.len() == g0.len() && is_bit_row(x@[k]@) by {
        lemma_row_at(g0, rule@, k as nat);
    }
    x
}

/// Builds a grid of `t` rows and `n` columns: row 0 from `n` coin flips of
/// `rng`, every later row by the rule.
pub fn construct(n: usize, t: usize, rule: &Vec<usize>, rng: &mut rand::rngs::StdRng) -> (x: Vec<
    Vec<usize>,
>)
    requires
        n >= 1,
        t >= 1,
        rule@.len() == 8,
    ensures
        x@.len() == t,
        x@[0]@.len() == n,
        is_bit_row(x@[0]@),
        is_grid_of(cells(x@), x@[0]@, t as nat, rule@),
        forall|m: int| 0 <= m < t ==> (#[trigger] x@[m])@.len() == n,
        forall|m: int, i: int| 0 <= m < t && 0 <= i < n ==> is_bit(#[trigger] x@[m]@[i]),
        forall|m: int| 1 <= m < t ==> (#[trigger] x@[m])@[0] == 0 && x@[m]@[n - 1] == 0,
{
    let mut row0: Vec<usize> = Vec::new();
    let mut i: usize = 0;
    while i < n
        invariant
            i <= n,
            row0@.len() == i,
            is_bit_row(row0@),
        decreases n - i,
    {
        let v = coin_flip(rng);
        row0.push(v);
        i = i + 1;
    }
    let x = construct_from_row(row0, t, rule);
    assert(cells(x@)[0] == x@[0]@);
    x
}

} // verus!

verus! {

/// Determinism: two grids built from the same row 0, rule and row count are
/// identical, cell for cell.
pub proof fn lemma_grid_determined(
    g1: Seq<Seq<usize>>,
    g2: Seq<Seq<usize>>,
    row0: Seq<usize>,
    t: nat,
    rule: Seq<usize>,
)
    requires
        is_grid_of(g1, row0, t, rule),
        is_grid_of(g2, row0, t, rule),
    ensures
        g1 == g2,
{
    assert(g1 =~= g2);
}

} // verus!
