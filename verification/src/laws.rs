use vstd::prelude::*;

use crate::adnum::{step, ADNum, Op};
use crate::node::{node_links_before, NodeView};
use crate::tape::TapeView;

verus! {

/// Recording keeps a tape in order: an operation on numbers that refer to the
/// tape leaves every node linked only to earlier nodes, and gives back a number
/// that refers to the tape; a result with a fresh id names the last node recorded.
pub proof fn lemma_step_keeps_order<V>(t: TapeView<V>, op: Op<V>)
    requires
        t.ordered(),
        op.operands_within(t.nodes.len()),
        op.admissible(t),
        t.nodes.len() + 2 <= usize::MAX,
    ensures
        step(t, op).0.ordered(),
        step(t, op).1.refers_within(step(t, op).0.nodes.len()),
        !(op is UnaryKeepId) && step(t, op).1 is Active ==> step(t, op).1->Active_1
            == step(t, op).0.nodes.len() - 1,
{
    let t2 = step(t, op).0;
    assert forall|i: int| 0 <= i < t2.nodes.len() implies node_links_before(
        #[trigger] t2.nodes[i],
        i,
    ) by {
        if i < t.nodes.len() {
            assert(t2.nodes[i] == t.nodes[i]);
        }
    }
}

/// The tape is append-only: an operation keeps the recorded nodes, the
/// recording flag and the constants, and adds at most two nodes at the end.
pub proof fn lemma_step_appends<V>(t: TapeView<V>, op: Op<V>)
    ensures
        step(t, op).0.active == t.active,
        step(t, op).0.zero == t.zero,
        step(t, op).0.one == t.one,
        step(t, op).0.minus_one == t.minus_one,
        t.nodes.len() <= step(t, op).0.nodes.len() <= t.nodes.len() + 2,
        step(t, op).0.nodes.subrange(0, t.nodes.len() as int) == t.nodes,
{
}

/// Recording never changes a value: the number an operation gives back holds
/// the value that the arithmetic computed for it.
pub proof fn lemma_step_value<V>(t: TapeView<V>, op: Op<V>)
    ensures
        step(t, op).1.spec_value() == op.result(),
{
}

/// A tape that does not record is left as it is, and every result is inactive.
pub proof fn lemma_idle_tape_records_nothing<V>(t: TapeView<V>, op: Op<V>)
    requires
        !t.active,
    ensures
        step(t, op) == (t, ADNum::Inactive(op.result())),
{
}

/// `t` with the node `n` added at its end, everything else as it was.
pub open spec fn appended<V>(t: TapeView<V>, n: NodeView<V>) -> TapeView<V> {
    TapeView {
        active: t.active,
        nodes: t.nodes.push(n),
        zero: t.zero,
        one: t.one,
        minus_one: t.minus_one,
    }
}

/// On a recording tape a fresh input appends a node without arguments, with
/// partials one and zero, and is the active number of that node.
pub proof fn lemma_leaf_records_input<V>(t: TapeView<V>, v: V)
    requires
        t.active,
    ensures
        step(t, Op::Leaf(v)) == (appended(t, (t.one, t.zero, None, None, 0)), ADNum::Active(v, (t.nodes.len() as usize))),
{
}

/// On a recording tape a function of an active number with id `k` appends one
/// node whose only argument is `k` itself, with the function's partial: the
/// chain rule then goes through `k`, whatever node `k` is. A function of an
/// inactive number records nothing.
pub proof fn lemma_unary_links_its_argument<V>(t: TapeView<V>, av: V, k: usize, r: V, d: V)
    requires
        t.active,
    ensures
        step(t, Op::Unary(ADNum::Active(av, k), r, d)) == (
            appended(t, (d, t.zero, Some(k), None, 1)),
            ADNum::Active(r, (t.nodes.len() as usize)),
        ),
        step(t, Op::Unary(ADNum::Inactive(av), r, d)) == (t, ADNum::Inactive(r)),
{
}

/// As a function of one number, but a function of an inactive number is a
/// fresh input on a recording tape.
pub proof fn lemma_unary_or_leaf_links_its_argument<V>(t: TapeView<V>, av: V, k: usize, r: V, d: V)
    requires
        t.active,
    ensures
        step(t, Op::UnaryOrLeaf(ADNum::Active(av, k), r, d)) == (
            appended(t, (d, t.zero, Some(k), None, 1)),
            ADNum::Active(r, (t.nodes.len() as usize)),
        ),
        step(t, Op::UnaryOrLeaf(ADNum::Inactive(av), r, d)) == (appended(t, (t.one, t.zero, None, None, 0)), ADNum::Active(r, (t.nodes.len() as usize))),
{
}

/// The power and the square root record their node on the argument `k`, and
/// the active result keeps the id `k`.
pub proof fn lemma_unary_keep_id_links_its_argument<V>(t: TapeView<V>, av: V, k: usize, r: V, d: V)
    requires
        t.active,
    ensures
        step(t, Op::UnaryKeepId(ADNum::Active(av, k), r, d)) == (
            appended(t, (d, t.zero, Some(k), None, 1)),
            ADNum::Active(r, k),
        ),
        step(t, Op::UnaryKeepId(ADNum::Inactive(av), r, d)) == (t, ADNum::Inactive(r)),
{
}

/// A number with id `k` combined with a plain scalar appends one node on `k`
/// with the given partials.
pub proof fn lemma_with_scalar_links_the_number<V>(t: TapeView<V>, av: V, k: usize, r: V, dl: V, dr: V)
    requires
        t.active,
    ensures
        step(t, Op::WithScalar(ADNum::Active(av, k), r, dl, dr)) == (
            appended(t, (dl, dr, Some(k), None, 1)),
            ADNum::Active(r, (t.nodes.len() as usize)),
        ),
{
}

/// On a recording tape `a + b` has partial one on each operand that is active,
/// and links to each operand's own id, also when both are the same number;
/// an inactive left operand is first recorded as a fresh input.
pub proof fn lemma_add_records<V>(t: TapeView<V>, av: V, i: usize, bv: V, j: usize, s: V)
    requires
        t.active,
    ensures
        step(t, Op::Add(ADNum::Active(av, i), ADNum::Active(bv, j), s)) == (
            appended(t, (t.one, t.one, Some(i), Some(j), 2)),
            ADNum::Active(s, (t.nodes.len() as usize)),
        ),
        step(t, Op::Add(ADNum::Active(av, i), ADNum::Inactive(bv), s)) == (
            appended(t, (t.one, t.zero, Some(i), None, 1)),
            ADNum::Active(s, (t.nodes.len() as usize)),
        ),
        step(t, Op::Add(ADNum::Inactive(av), ADNum::Active(bv, j), s)) == (
            appended(appended(t, (t.one, t.zero, None, None, 0)), (t.one, t.one, Some((t.nodes.len() as usize)), Some(j), 2)),
            ADNum::Active(s, ((t.nodes.len() + 1) as usize)),
        ),
        step(t, Op::Add(ADNum::Inactive(av), ADNum::Inactive(bv), s)) == (t, ADNum::Inactive(s)),
{
}

/// On a recording tape `a - b` has partial one on `a` and minus one on `b`;
/// subtracting a constant from an active number keeps partial one on it.
pub proof fn lemma_sub_records<V>(t: TapeView<V>, av: V, i: usize, bv: V, j: usize, d: V)
    requires
        t.active,
    ensures
        step(t, Op::Sub(ADNum::Active(av, i), ADNum::Active(bv, j), d)) == (
            appended(t, (t.one, t.minus_one, Some(i), Some(j), 2)),
            ADNum::Active(d, (t.nodes.len() as usize)),
        ),
        step(t, Op::Sub(ADNum::Active(av, i), ADNum::Inactive(bv), d)) == (
            appended(t, (t.one, t.zero, Some(i), None, 1)),
            ADNum::Active(d, (t.nodes.len() as usize)),
        ),
        step(t, Op::Sub(ADNum::Inactive(av), ADNum::Active(bv, j), d)) == (
            appended(appended(t, (t.one, t.zero, None, None, 0)), (t.one, t.minus_one, Some((t.nodes.len() as usize)), Some(j), 2)),
            ADNum::Active(d, ((t.nodes.len() + 1) as usize)),
        ),
        step(t, Op::Sub(ADNum::Inactive(av), ADNum::Inactive(bv), d)) == (t, ADNum::Inactive(d)),
{
}

/// On a recording tape the partial of `a * b` with respect to each active
/// operand is the value of the other operand.
pub proof fn lemma_mul_records<V>(t: TapeView<V>, av: V, i: usize, bv: V, j: usize, p: V)
    requires
        t.active,
    ensures
        step(t, Op::Mul(ADNum::Active(av, i), ADNum::Active(bv, j), p)) == (
            appended(t, (bv, av, Some(i), Some(j), 2)),
            ADNum::Active(p, (t.nodes.len() as usize)),
        ),
        step(t, Op::Mul(ADNum::Active(av, i), ADNum::Inactive(bv), p)) == (
            appended(t, (bv, av, Some(i), None, 1)),
            ADNum::Active(p, (t.nodes.len() as usize)),
        ),
        step(t, Op::Mul(ADNum::Inactive(av), ADNum::Active(bv, j), p)) == (
            appended(t, (av, bv, Some(j), None, 1)),
            ADNum::Active(p, (t.nodes.len() as usize)),
        ),
        step(t, Op::Mul(ADNum::Inactive(av), ADNum::Inactive(bv), p)) == (t, ADNum::Inactive(p)),
{
}

/// On a recording tape `a / b` of two active numbers records both partials
/// `dl` (`1 / b`) and `dr` (`-a / b²`) on the operands' own ids, also when both
/// are the same number; an active number over a constant records `dl` only;
/// an inactive number over anything records nothing.
pub proof fn lemma_div_records<V>(t: TapeView<V>, av: V, i: usize, bv: V, j: usize, q: V, dl: V, dr: V)
    requires
        t.active,
    ensures
        step(t, Op::Div(ADNum::Active(av, i), ADNum::Active(bv, j), q, dl, dr)) == (
            appended(t, (dl, dr, Some(i), Some(j), 2)),
            ADNum::Active(q, (t.nodes.len() as usize)),
        ),
        step(t, Op::Div(ADNum::Active(av, i), ADNum::Inactive(bv), q, dl, dr)) == (
            appended(t, (dl, t.zero, Some(i), None, 1)),
            ADNum::Active(q, (t.nodes.len() as usize)),
        ),
        step(t, Op::Div(ADNum::Inactive(av), ADNum::Active(bv, j), q, dl, dr)) == (
            t,
            ADNum::Inactive(q),
        ),
        step(t, Op::Div(ADNum::Inactive(av), ADNum::Inactive(bv), q, dl, dr)) == (
            t,
            ADNum::Inactive(q),
        ),
{
}

/// On a recording tape a plain scalar `c` as left operand is first recorded
/// as a fresh input, then the operation links to it and to `b`.
pub proof fn lemma_scalar_lhs_records<V>(t: TapeView<V>, c: V, bv: V, j: usize, r: V, dl: V, dr: V)
    requires
        t.active,
    ensures
        step(t, Op::ScalarAdd(c, ADNum::Active(bv, j), r)) == (
            appended(appended(t, (t.one, t.zero, None, None, 0)), (t.one, t.one, Some((t.nodes.len() as usize)), Some(j), 2)),
            ADNum::Active(r, ((t.nodes.len() + 1) as usize)),
        ),
        step(t, Op::ScalarAdd(c, ADNum::Inactive(bv), r)) == (
            appended(appended(t, (t.one, t.zero, None, None, 0)), (t.one, t.zero, Some((t.nodes.len() as usize)), None, 1)),
            ADNum::Active(r, ((t.nodes.len() + 1) as usize)),
        ),
        step(t, Op::ScalarSub(c, ADNum::Active(bv, j), r)) == (
            appended(appended(t, (t.one, t.zero, None, None, 0)), (t.one, t.minus_one, Some((t.nodes.len() as usize)), Some(j), 2)),
            ADNum::Active(r, ((t.nodes.len() + 1) as usize)),
        ),
        step(t, Op::ScalarSub(c, ADNum::Inactive(bv), r)) == (
            appended(appended(t, (t.one, t.zero, None, None, 0)), (t.one, t.zero, Some((t.nodes.len() as usize)), None, 1)),
            ADNum::Active(r, ((t.nodes.len() + 1) as usize)),
        ),
        step(t, Op::ScalarMul(c, ADNum::Active(bv, j), r)) == (
            appended(appended(t, (t.one, t.zero, None, None, 0)), (bv, c, Some((t.nodes.len() as usize)), Some(j), 2)),
            ADNum::Active(r, ((t.nodes.len() + 1) as usize)),
        ),
        step(t, Op::ScalarMul(c, ADNum::Inactive(bv), r)) == (
            appended(appended(t, (t.one, t.zero, None, None, 0)), (bv, c, Some((t.nodes.len() as usize)), None, 1)),
            ADNum::Active(r, ((t.nodes.len() + 1) as usize)),
        ),
        step(t, Op::ScalarDiv(c, ADNum::Active(bv, j), r, dl, dr)) == (
            appended(appended(t, (t.one, t.zero, None, None, 0)), (dl, dr, Some((t.nodes.len() as usize)), Some(j), 2)),
            ADNum::Active(r, ((t.nodes.len() + 1) as usize)),
        ),
        step(t, Op::ScalarDiv(c, ADNum::Inactive(bv), r, dl, dr)) == (
            appended(appended(t, (t.one, t.zero, None, None, 0)), (dl, t.zero, Some((t.nodes.len() as usize)), None, 1)),
            ADNum::Active(r, ((t.nodes.len() + 1) as usize)),
        ),
{
}

} // verus!
