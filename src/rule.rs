//! The eight-entry local update table of an elementary cellular automaton.
use vstd::prelude::*;

verus! {

/// A cell value of the automaton: 0 or 1.
pub open spec fn is_bit(v: usize) -> bool {
    v <= 1
}

/// A well-formed rule: exactly eight entries, each 0 or 1.
pub open spec fn is_rule(rule: Seq<usize>) -> bool {
    rule.len() == 8 && forall|k: int| 0 <= k < 8 ==> is_bit(#[trigger] rule[k])
}

/// Position of a neighbourhood's output in the table: the left cell is the
/// most significant bit, and (0,0,0) sits last.
pub open spec fn rule_index(left: usize, center: usize, right: usize) -> int {
    7 - (4 * left + 2 * center + right)
}

/// Output of the table for a neighbourhood: 1 exactly where the entry is 1.
pub open spec fn rule_output(rule: Seq<usize>, left: usize, center: usize, right: usize) -> usize {
    if rule[rule_index(left, center, right)] == 1 {
        1
    } else {
        0
    }
}

/// Evaluates the rule on the neighbourhood `x` = (left, center, right).
pub fn eca_rule_result(x: (usize, usize, usize), rule: Vec<usize>) -> (r: usize)
    requires
        is_bit(x.0),
        is_bit(x.1),
        is_bit(x.2),
        rule@.len() == 8,
    ensures
        r == rule_output(rule@, x.0, x.1, x.2),
        is_bit(r),
        is_rule(rule@) ==> r == rule@[rule_index(x.0, x.1, x.2)],
{
    let rule_loc: usize = 7 - (4 * x.0 + 2 * x.1 + x.2);
    if rule[rule_loc] == 1 {
        1
    } else {
        0
    }
}

} // verus!
