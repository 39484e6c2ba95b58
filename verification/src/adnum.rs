use vstd::prelude::*;

use crate::node::ADNode;
use crate::tape::{Tape, TapeView};

verus! {

/// A number that supports automatic differentiation: an active number stands
/// for the tape node at its id, an inactive one is a plain value.
#[derive(Debug, Clone, Copy)]
pub enum ADNum<V> {
    Active(V, usize),
    Inactive(V),
}

impl<V> ADNum<V> {
    pub open spec fn spec_value(self) -> V {
        match self {
            ADNum::Active(v, _) => v,
            ADNum::Inactive(v) => v,
        }
    }

    /// The number is inactive, or its id names a node of a tape of `len` nodes.
    pub open spec fn refers_within(self, len: nat) -> bool {
        self matches ADNum::Active(_, id) ==> id < len
    }
}

// ---------------------------------------------------------------------------
// What each operation does to the tape and which number it gives back.
// ---------------------------------------------------------------------------

/// The id that the next recorded node gets.
pub open spec fn next_id<V>(t: TapeView<V>) -> usize {
    t.nodes.len() as usize
}

/// A fresh input: on a recording tape a node without arguments, whose
/// partials are one and zero, and an active number for it.
pub open spec fn leaf_model<V>(t: TapeView<V>, value: V) -> (TapeView<V>, ADNum<V>) {
    if t.active {
        (t.record((t.one, t.zero, None, None, 0)), ADNum::Active(value, next_id(t)))
    } else {
        (t, ADNum::Inactive(value))
    }
}

/// A one-argument node on `parent`, with partials `dl` and `dr`.
pub open spec fn single_model<V>(t: TapeView<V>, parent: usize, result: V, dl: V, dr: V) -> (
    TapeView<V>,
    ADNum<V>,
) {
    (t.record((dl, dr, Some(parent), None, 1)), ADNum::Active(result, next_id(t)))
}

/// A two-argument node on `lhs` and `rhs`, with partials `dl` and `dr`.
pub open spec fn pair_model<V>(t: TapeView<V>, lhs: usize, rhs: usize, result: V, dl: V, dr: V) -> (
    TapeView<V>,
    ADNum<V>,
) {
    (t.record((dl, dr, Some(lhs), Some(rhs), 2)), ADNum::Active(result, next_id(t)))
}

/// A function of one number: recorded only when the tape records and the
/// argument is active; otherwise an inactive result.
pub open spec fn unary_model<V>(t: TapeView<V>, a: ADNum<V>, result: V, der: V) -> (
    TapeView<V>,
    ADNum<V>,
) {
    match (t.active, a) {
        (true, ADNum::Active(_, id)) => single_model(t, id, result, der, t.zero),
        _ => (t, ADNum::Inactive(result)),
    }
}

/// As `unary_model`, but when nothing is recorded for the argument the result
/// is a fresh input (a leaf on a recording tape).
pub open spec fn unary_or_leaf_model<V>(t: TapeView<V>, a: ADNum<V>, result: V, der: V) -> (
    TapeView<V>,
    ADNum<V>,
) {
    match (t.active, a) {
        (true, ADNum::Active(_, id)) => single_model(t, id, result, der, t.zero),
        _ => leaf_model(t, result),
    }
}

/// As `unary_model`, but the active result keeps the id of its argument
/// although a node is recorded.
pub open spec fn unary_keep_id_model<V>(t: TapeView<V>, a: ADNum<V>, result: V, der: V) -> (
    TapeView<V>,
    ADNum<V>,
) {
    match (t.active, a) {
        (true, ADNum::Active(_, id)) => (
            t.record((der, t.zero, Some(id), None, 1)),
            ADNum::Active(result, id),
        ),
        _ => (t, ADNum::Inactive(result)),
    }
}

/// A number combined with a plain scalar: on a recording tape a one-argument
/// node on the number (which must then be active), otherwise an inactive result.
pub open spec fn with_scalar_model<V>(t: TapeView<V>, a: ADNum<V>, result: V, dl: V, dr: V) -> (
    TapeView<V>,
    ADNum<V>,
) {
    if t.active {
        single_model(t, a->Active_1, result, dl, dr)
    } else {
        (t, ADNum::Inactive(result))
    }
}

/// A plain scalar `c` as the left operand: it becomes a fresh input first,
/// then the operation records on it and on `b`: a two-argument node with
/// partials `pl`, `pr` when `b` is active, else a one-argument node with
/// partials `sl`, `sr`.
pub open spec fn scalar_lhs_model<V>(
    t: TapeView<V>,
    c: V,
    b: ADNum<V>,
    result: V,
    pl: V,
    pr: V,
    sl: V,
    sr: V,
) -> (TapeView<V>, ADNum<V>) {
    if t.active {
        let t1 = leaf_model(t, c).0;
        match b {
            ADNum::Active(_, j) => pair_model(t1, next_id(t), j, result, pl, pr),
            ADNum::Inactive(_) => single_model(t1, next_id(t), result, sl, sr),
        }
    } else {
        (t, ADNum::Inactive(result))
    }
}

/// `c + b` for a plain scalar `c`.
pub open spec fn scalar_add_model<V>(t: TapeView<V>, c: V, b: ADNum<V>, sum: V) -> (
    TapeView<V>,
    ADNum<V>,
) {
    scalar_lhs_model(t, c, b, sum, t.one, t.one, t.one, t.zero)
}

/// `c - b` for a plain scalar `c`.
pub open spec fn scalar_sub_model<V>(t: TapeView<V>, c: V, b: ADNum<V>, diff: V) -> (
    TapeView<V>,
    ADNum<V>,
) {
    scalar_lhs_model(t, c, b, diff, t.one, t.minus_one, t.one, t.zero)
}

/// `c * b` for a plain scalar `c`.
pub open spec fn scalar_mul_model<V>(t: TapeView<V>, c: V, b: ADNum<V>, prod: V) -> (
    TapeView<V>,
    ADNum<V>,
) {
    scalar_lhs_model(t, c, b, prod, b.spec_value(), c, b.spec_value(), c)
}

/// `c / b` for a plain scalar `c`; `dl` is `1 / b` and `dr` is `-c / b²`.
pub open spec fn scalar_div_model<V>(t: TapeView<V>, c: V, b: ADNum<V>, quot: V, dl: V, dr: V) -> (
    TapeView<V>,
    ADNum<V>,
) {
    scalar_lhs_model(t, c, b, quot, dl, dr, dl, t.zero)
}

/// `a + b`.
pub open spec fn add_model<V>(t: TapeView<V>, a: ADNum<V>, b: ADNum<V>, sum: V) -> (
    TapeView<V>,
    ADNum<V>,
) {
    match (t.active, a, b) {
        (true, ADNum::Active(_, i), ADNum::Active(_, j)) => pair_model(t, i, j, sum, t.one, t.one),
        (true, ADNum::Active(_, i), ADNum::Inactive(_)) => single_model(t, i, sum, t.one, t.zero),
        (true, ADNum::Inactive(av), ADNum::Active(_, _)) => scalar_add_model(t, av, b, sum),
        _ => (t, ADNum::Inactive(sum)),
    }
}

/// `a - b`.
pub open spec fn sub_model<V>(t: TapeView<V>, a: ADNum<V>, b: ADNum<V>, diff: V) -> (
    TapeView<V>,
    ADNum<V>,
) {
    match (t.active, a, b) {
        (true, ADNum::Active(_, i), ADNum::Active(_, j)) => pair_model(
            t,
            i,
            j,
            diff,
            t.one,
            t.minus_one,
        ),
        (true, ADNum::Active(_, i), ADNum::Inactive(_)) => single_model(t, i, diff, t.one, t.zero),
        (true, ADNum::Inactive(av), ADNum::Active(_, _)) => scalar_sub_model(t, av, b, diff),
        _ => (t, ADNum::Inactive(diff)),
    }
}

/// `a * b`: the partials are the other operand's value.
pub open spec fn mul_model<V>(t: TapeView<V>, a: ADNum<V>, b: ADNum<V>, prod: V) -> (
    TapeView<V>,
    ADNum<V>,
) {
    match (t.active, a, b) {
        (true, ADNum::Active(av, i), ADNum::Active(bv, j)) => pair_model(t, i, j, prod, bv, av),
        (true, ADNum::Active(av, i), ADNum::Inactive(bv)) => single_model(t, i, prod, bv, av),
        (true, ADNum::Inactive(av), ADNum::Active(bv, j)) => single_model(t, j, prod, av, bv),
        _ => (t, ADNum::Inactive(prod)),
    }
}

/// `a / b`; `dl` is `1 / b` and `dr` is `-a / b²`. An inactive dividend over an
/// active divisor gives an inactive result.
pub open spec fn div_model<V>(t: TapeView<V>, a: ADNum<V>, b: ADNum<V>, quot: V, dl: V, dr: V) -> (
    TapeView<V>,
    ADNum<V>,
) {
    match (t.active, a, b) {
        (true, ADNum::Active(_, i), ADNum::Active(_, j)) => pair_model(t, i, j, quot, dl, dr),
        (true, ADNum::Active(_, i), ADNum::Inactive(_)) => single_model(t, i, quot, dl, t.zero),
        _ => (t, ADNum::Inactive(quot)),
    }
}

/// The operations that a computation records, with the values that the
/// arithmetic outside the library computed for them.
pub enum Op<V> {
    /// A fresh input.
    Leaf(V),
    /// A function of one number: argument, result, partial.
    Unary(ADNum<V>, V, V),
    /// As `Unary`, but a fresh input when nothing is recorded for the argument.
    UnaryOrLeaf(ADNum<V>, V, V),
    /// As `Unary`, but the active result keeps the argument's id.
    UnaryKeepId(ADNum<V>, V, V),
    /// A number with a plain scalar: number, result, left and right partial.
    WithScalar(ADNum<V>, V, V, V),
    Add(ADNum<V>, ADNum<V>, V),
    Sub(ADNum<V>, ADNum<V>, V),
    Mul(ADNum<V>, ADNum<V>, V),
    /// Dividend, divisor, quotient, `1 / divisor`, `-dividend / divisor²`.
    Div(ADNum<V>, ADNum<V>, V, V, V),
    ScalarAdd(V, ADNum<V>, V),
    ScalarSub(V, ADNum<V>, V),
    ScalarMul(V, ADNum<V>, V),
    ScalarDiv(V, ADNum<V>, V, V, V),
}

impl<V> Op<V> {
    /// The value of the operation's result.
    pub open spec fn result(self) -> V {
        match self {
            Op::Leaf(v) => v,
            Op::Unary(_, r, _) => r,
            Op::UnaryOrLeaf(_, r, _) => r,
            Op::UnaryKeepId(_, r, _) => r,
            Op::WithScalar(_, r, _, _) => r,
            Op::Add(_, _, r) => r,
            Op::Sub(_, _, r) => r,
            Op::Mul(_, _, r) => r,
            Op::Div(_, _, r, _, _) => r,
            Op::ScalarAdd(_, _, r) => r,
            Op::ScalarSub(_, _, r) => r,
            Op::ScalarMul(_, _, r) => r,
            Op::ScalarDiv(_, _, r, _, _) => r,
        }
    }

    /// Every number that the operation takes refers to a node of a tape of `len` nodes.
    pub open spec fn operands_within(self, len: nat) -> bool {
        match self {
            Op::Leaf(_) => true,
            Op::Unary(a, _, _) => a.refers_within(len),
            Op::UnaryOrLeaf(a, _, _) => a.refers_within(len),
            Op::UnaryKeepId(a, _, _) => a.refers_within(len),
            Op::WithScalar(a, _, _, _) => a.refers_within(len),
            Op::Add(a, b, _) => a.refers_within(len) && b.refers_within(len),
            Op::Sub(a, b, _) => a.refers_within(len) && b.refers_within(len),
            Op::Mul(a, b, _) => a.refers_within(len) && b.refers_within(len),
            Op::Div(a, b, _, _, _) => a.refers_within(len) && b.refers_within(len),
            Op::ScalarAdd(_, b, _) => b.refers_within(len),
            Op::ScalarSub(_, b, _) => b.refers_within(len),
            Op::ScalarMul(_, b, _) => b.refers_within(len),
            Op::ScalarDiv(_, b, _, _, _) => b.refers_within(len),
        }
    }

    /// The operation can be performed: a number combined with a plain scalar
    /// on a recording tape must be active.
    pub open spec fn admissible(self, t: TapeView<V>) -> bool {
        match self {
            Op::WithScalar(a, _, _, _) => t.active ==> a is Active,
            _ => true,
        }
    }
}

/// The tape after the operation, and the number it gives back.
pub open spec fn step<V>(t: TapeView<V>, op: Op<V>) -> (TapeView<V>, ADNum<V>) {
    match op {
        Op::Leaf(v) => leaf_model(t, v),
        Op::Unary(a, r, d) => unary_model(t, a, r, d),
        Op::UnaryOrLeaf(a, r, d) => unary_or_leaf_model(t, a, r, d),
        Op::UnaryKeepId(a, r, d) => unary_keep_id_model(t, a, r, d),
        Op::WithScalar(a, r, dl, dr) => with_scalar_model(t, a, r, dl, dr),
        Op::Add(a, b, r) => add_model(t, a, b, r),
        Op::Sub(a, b, r) => sub_model(t, a, b, r),
        Op::Mul(a, b, r) => mul_model(t, a, b, r),
        Op::Div(a, b, r, dl, dr) => div_model(t, a, b, r, dl, dr),
        Op::ScalarAdd(c, b, r) => scalar_add_model(t, c, b, r),
        Op::ScalarSub(c, b, r) => scalar_sub_model(t, c, b, r),
        Op::ScalarMul(c, b, r) => scalar_mul_model(t, c, b, r),
        Op::ScalarDiv(c, b, r, dl, dr) => scalar_div_model(t, c, b, r, dl, dr),
    }
}

// ---------------------------------------------------------------------------
// The operations.
// ---------------------------------------------------------------------------

impl<V: Copy> ADNum<V> {
    /// A fresh input: recorded as a leaf when the tape records.
    pub fn new(tape: &mut Tape<V>, value: V) -> (r: ADNum<V>)
        ensures
            (final(tape)@, r) == leaf_model(old(tape)@, value),
    {
        if tape.is_active() {
            let id: usize = tape.len();
            let node = ADNode::new([tape.one(), tape.zero()], [None, None], 0);
            tape.push_node(node);
            ADNum::Active(value, id)
        } else {
            ADNum::Inactive(value)
        }
    }

    pub fn new_active(value: V, id: usize) -> (r: ADNum<V>)
        ensures
            r == ADNum::Active(value, id),
    {
        ADNum::Active(value, id)
    }

    pub fn new_inactive(value: V) -> (r: ADNum<V>)
        ensures
            r == ADNum::Inactive(value),
    {
        ADNum::Inactive(value)
    }

    /// The tape position of an active number.
    pub fn id(&self) -> (id: usize)
        requires
            self is Active,
        ensures
            id == self->Active_1,
    {
        match self {
            ADNum::Active(_, id) => *id,
            ADNum::Inactive(_) => 0,
        }
    }

    pub fn value(&self) -> (v: V)
        ensures
            v == self.spec_value(),
    {
        match self {
            ADNum::Active(value, _) => *value,
            ADNum::Inactive(value) => *value,
        }
    }

    fn scalar_lhs(
        c: V,
        other: ADNum<V>,
        tape: &mut Tape<V>,
        result: V,
        pl: V,
        pr: V,
        sl: V,
        sr: V,
    ) -> (r: ADNum<V>)
        ensures
            (final(tape)@, r) == scalar_lhs_model(old(tape)@, c, other, result, pl, pr, sl, sr),
    {
        if tape.is_active() {
            let id: usize = tape.len();
            let _ = Self::new(tape, c);
            match other {
                ADNum::Active(_, other_id) => Self::record_pair(tape, id, other_id, result, pl, pr),
                ADNum::Inactive(_) => Self::record_single(tape, id, result, sl, sr),
            }
        } else {
            ADNum::Inactive(result)
        }
    }

    /// `self + other` for a plain scalar `other`; `sum` is the sum of the values.
    /// On a recording tape `self` must be active.
    pub fn add_scalar(self, tape: &mut Tape<V>, sum: V) -> (r: ADNum<V>)
        requires
            old(tape)@.active ==> self is Active,
        ensures
            (final(tape)@, r) == with_scalar_model(
                old(tape)@,
                self,
                sum,
                old(tape)@.one,
                old(tape)@.zero,
            ),
    {
        if tape.is_active() {
            let (one, zero) = (tape.one(), tape.zero());
            Self::record_single(tape, self.id(), sum, one, zero)
        } else {
            ADNum::Inactive(sum)
        }
    }

    /// `self - other` for a plain scalar `other`; `diff` is the difference of the values.
    /// On a recording tape `self` must be active.
    pub fn sub_scalar(self, tape: &mut Tape<V>, diff: V) -> (r: ADNum<V>)
        requires
            old(tape)@.active ==> self is Active,
        ensures
            (final(tape)@, r) == with_scalar_model(
                old(tape)@,
                self,
                diff,
                old(tape)@.one,
                old(tape)@.zero,
            ),
    {
        if tape.is_active() {
            let (one, zero) = (tape.one(), tape.zero());
            Self::record_single(tape, self.id(), diff, one, zero)
        } else {
            ADNum::Inactive(diff)
        }
    }

    /// `self * other` for a plain scalar `other`; `prod` is the product of the values.
    /// The recorded partials are `other` and the value of `self`.
    /// On a recording tape `self` must be active.
    pub fn mul_scalar(self, other: V, tape: &mut Tape<V>, prod: V) -> (r: ADNum<V>)
        requires
            old(tape)@.active ==> self is Active,
        ensures
            (final(tape)@, r) == with_scalar_model(old(tape)@, self, prod, other, self.spec_value()),
    {
        if tape.is_active() {
            Self::record_single(tape, self.id(), prod, other, self.value())
        } else {
            ADNum::Inactive(prod)
        }
    }

    /// `self / other` for a plain scalar `other`; `quot` is the quotient of the
    /// values and `inv` is `1 / other`. On a recording tape `self` must be active.
    pub fn div_scalar(self, tape: &mut Tape<V>, quot: V, inv: V) -> (r: ADNum<V>)
        requires
            old(tape)@.active ==> self is Active,
        ensures
            (final(tape)@, r) == with_scalar_model(old(tape)@, self, quot, inv, old(tape)@.zero),
    {
        if tape.is_active() {
            let zero = tape.zero();
            Self::record_single(tape, self.id(), quot, inv, zero)
        } else {
            ADNum::Inactive(quot)
        }
    }

    /// `c + other` for a plain scalar `c`.
    pub fn scalar_add(c: V, other: ADNum<V>, tape: &mut Tape<V>, sum: V) -> (r: ADNum<V>)
        ensures
            (final(tape)@, r) == scalar_add_model(old(tape)@, c, other, sum),
    {
        let (one, zero) = (tape.one(), tape.zero());
        Self::scalar_lhs(c, other, tape, sum, one, one, one, zero)
    }

    /// `c - other` for a plain scalar `c`.
    pub fn scalar_sub(c: V, other: ADNum<V>, tape: &mut Tape<V>, diff: V) -> (r: ADNum<V>)
        ensures
            (final(tape)@, r) == scalar_sub_model(old(tape)@, c, other, diff),
    {
        let (one, minus_one, zero) = (tape.one(), tape.minus_one(), tape.zero());
        Self::scalar_lhs(c, other, tape, diff, one, minus_one, one, zero)
    }

    /// `c * other` for a plain scalar `c`.
    pub fn scalar_mul(c: V, other: ADNum<V>, tape: &mut Tape<V>, prod: V) -> (r: ADNum<V>)
        ensures
            (final(tape)@, r) == scalar_mul_model(old(tape)@, c, other, prod),
    {
        let ov = other.value();
        Self::scalar_lhs(c, other, tape, prod, ov, c, ov, c)
    }

    /// `c / other` for a plain scalar `c`; `inv` is `1 / other` and `dr` is `-c / other²`.
    pub fn scalar_div(c: V, other: ADNum<V>, tape: &mut Tape<V>, quot: V, inv: V, dr: V) -> (r:
        ADNum<V>)
        ensures
            (final(tape)@, r) == scalar_div_model(old(tape)@, c, other, quot, inv, dr),
    {
        let zero = tape.zero();
        Self::scalar_lhs(c, other, tape, quot, inv, dr, inv, zero)
    }

    /// `self + other`; `sum` is the sum of the values.
    pub fn add(self, other: ADNum<V>, tape: &mut Tape<V>, sum: V) -> (r: ADNum<V>)
        ensures
            (final(tape)@, r) == add_model(old(tape)@, self, other, sum),
    {
        if tape.is_active() {
            match (self, other) {
                (ADNum::Active(_, id), ADNum::Active(_, other_id)) => {
                    let one = tape.one();
                    Self::record_pair(tape, id, other_id, sum, one, one)
                },
                (ADNum::Active(_, _), ADNum::Inactive(_)) => self.add_scalar(tape, sum),
                (ADNum::Inactive(value), ADNum::Active(_, _)) => Self::scalar_add(
                    value,
                    other,
                    tape,
                    sum,
                ),
                _ => ADNum::Inactive(sum),
            }
        } else {
            ADNum::Inactive(sum)
        }
    }

    /// `self - other`; `diff` is the difference of the values.
    pub fn sub(self, other: ADNum<V>, tape: &mut Tape<V>, diff: V) -> (r: ADNum<V>)
        ensures
            (final(tape)@, r) == sub_model(old(tape)@, self, other, diff),
    {
        if tape.is_active() {
            match (self, other) {
                (ADNum::Active(_, id), ADNum::Active(_, other_id)) => {
                    let (one, minus_one) = (tape.one(), tape.minus_one());
                    Self::record_pair(tape, id, other_id, diff, one, minus_one)
                },
                (ADNum::Active(_, _), ADNum::Inactive(_)) => self.sub_scalar(tape, diff),
                (ADNum::Inactive(value), ADNum::Active(_, _)) => Self::scalar_sub(
                    value,
                    other,
                    tape,
                    diff,
                ),
                _ => ADNum::Inactive(diff),
            }
        } else {
            ADNum::Inactive(diff)
        }
    }

    /// `self * other`; `prod` is the product of the values.
    pub fn mul(self, other: ADNum<V>, tape: &mut Tape<V>, prod: V) -> (r: ADNum<V>)
        ensures
            (final(tape)@, r) == mul_model(old(tape)@, self, other, prod),
    {
        if tape.is_active() {
            match (self, other) {
                (ADNum::Active(value, id), ADNum::Active(other_value, other_id)) => {
                    Self::record_pair(tape, id, other_id, prod, other_value, value)
                },
                (ADNum::Active(_, _), ADNum::Inactive(value)) => self.mul_scalar(value, tape, prod),
                (ADNum::Inactive(value), ADNum::Active(_, _)) => other.mul_scalar(
                    value,
                    tape,
                    prod,
                ),
                _ => ADNum::Inactive(prod),
            }
        } else {
            ADNum::Inactive(prod)
        }
    }

    /// `self / other`; `quot` is the quotient of the values, `inv` is
    /// `1 / other` and `dr` is `-self / other²`.
    pub fn div(self, other: ADNum<V>, tape: &mut Tape<V>, quot: V, inv: V, dr: V) -> (r: ADNum<V>)
        ensures
            (final(tape)@, r) == div_model(old(tape)@, self, other, quot, inv, dr),
    {
        if tape.is_active() {
            match (self, other) {
                (ADNum::Active(_, id), ADNum::Active(_, other_id)) => {
                    Self::record_pair(tape, id, other_id, quot, inv, dr)
                },
                (ADNum::Active(_, _), ADNum::Inactive(_)) => self.div_scalar(tape, quot, inv),
                _ => ADNum::Inactive(quot),
            }
        } else {
            ADNum::Inactive(quot)
        }
    }

    /// `-self`; `result` is the negated value. The recorded partial is minus one.
    pub fn neg(self, tape: &mut Tape<V>, result: V) -> (r: ADNum<V>)
        ensures
            (final(tape)@, r) == unary_model(old(tape)@, self, result, old(tape)@.minus_one),
    {
        let minus_one = tape.minus_one();
        self.unary(tape, result, minus_one)
    }

    /// `*self = *self + rhs`.
    pub fn add_assign(&mut self, rhs: ADNum<V>, tape: &mut Tape<V>, sum: V)
        ensures
            (final(tape)@, *final(self)) == add_model(old(tape)@, *old(self), rhs, sum),
    {
        *self = self.add(rhs, tape, sum);
    }

    /// `*self = *self - rhs`.
    pub fn sub_assign(&mut self, rhs: ADNum<V>, tape: &mut Tape<V>, diff: V)
        ensures
            (final(tape)@, *final(self)) == sub_model(old(tape)@, *old(self), rhs, diff),
    {
        *self = self.sub(rhs, tape, diff);
    }

    /// `*self = *self * rhs`.
    pub fn mul_assign(&mut self, rhs: ADNum<V>, tape: &mut Tape<V>, prod: V)
        ensures
            (final(tape)@, *final(self)) == mul_model(old(tape)@, *old(self), rhs, prod),
    {
        *self = self.mul(rhs, tape, prod);
    }

    /// `*self = *self / rhs`.
    pub fn div_assign(&mut self, rhs: ADNum<V>, tape: &mut Tape<V>, quot: V, inv: V, dr: V)
        ensures
            (final(tape)@, *final(self)) == div_model(old(tape)@, *old(self), rhs, quot, inv, dr),
    {
        *self = self.div(rhs, tape, quot, inv, dr);
    }

    fn unary(self, tape: &mut Tape<V>, result: V, der: V) -> (r: ADNum<V>)
        ensures
            (final(tape)@, r) == unary_model(old(tape)@, self, result, der),
    {
        if tape.is_active() {
            match self {
                ADNum::Active(_, id) => {
                    let zero = tape.zero();
                    Self::record_single(tape, id, result, der, zero)
                },
                ADNum::Inactive(_) => ADNum::Inactive(result),
            }
        } else {
            ADNum::Inactive(result)
        }
    }

    fn unary_or_leaf(self, tape: &mut Tape<V>, result: V, der: V) -> (r: ADNum<V>)
        ensures
            (final(tape)@, r) == unary_or_leaf_model(old(tape)@, self, result, der),
    {
        match (tape.is_active(), self) {
            (true, ADNum::Active(_, id)) => {
                let zero = tape.zero();
                Self::record_single(tape, id, result, der, zero)
            },
            _ => Self::new(tape, result),
        }
    }

    fn unary_keep_id(self, tape: &mut Tape<V>, result: V, der: V) -> (r: ADNum<V>)
        ensures
            (final(tape)@, r) == unary_keep_id_model(old(tape)@, self, result, der),
    {
        match (tape.is_active(), self) {
            (true, ADNum::Active(_, id)) => {
                let zero = tape.zero();
                let _ = Self::record_single(tape, id, result, der, zero);
                ADNum::Active(result, id)
            },
            _ => ADNum::Inactive(result),
        }
    }

    /// `|self|`; `der` is the sign of the value.
    pub fn abs(self, tape: &mut Tape<V>, result: V, der: V) -> (r: ADNum<V>)
        ensures
            (final(tape)@, r) == unary_model(old(tape)@, self, result, der),
    {
        self.unary(tape, result, der)
    }

    /// `self * a + b` computed as one fused operation; `result` is its value.
    /// Only `self` is recorded as an argument, with the value of `a` as partial.
    pub fn mul_add(self, a: ADNum<V>, tape: &mut Tape<V>, result: V) -> (r: ADNum<V>)
        ensures
            (final(tape)@, r) == unary_model(old(tape)@, self, result, a.spec_value()),
    {
        self.unary(tape, result, a.value())
    }

    /// `1 / self`; `der` is `-1 / self²`. When nothing is recorded for `self`, the result is a fresh input.
    pub fn recip(self, tape: &mut Tape<V>, result: V, der: V) -> (r: ADNum<V>)
        ensures
            (final(tape)@, r) == unary_or_leaf_model(old(tape)@, self, result, der),
    {
        self.unary_or_leaf(tape, result, der)
    }

    /// `self` to an integer power `n`; `der` is `n * self^(n-1)`. When nothing is recorded for `self`, the result is a fresh input.
    pub fn powi(self, tape: &mut Tape<V>, result: V, der: V) -> (r: ADNum<V>)
        ensures
            (final(tape)@, r) == unary_or_leaf_model(old(tape)@, self, result, der),
    {
        self.unary_or_leaf(tape, result, der)
    }

    /// `self` to a real power `n`; `der` is `n * self^(n-1)`. The active result keeps the id of `self`.
    pub fn powf(self, tape: &mut Tape<V>, result: V, der: V) -> (r: ADNum<V>)
        ensures
            (final(tape)@, r) == unary_keep_id_model(old(tape)@, self, result, der),
    {
        self.unary_keep_id(tape, result, der)
    }

    /// The square root; `der` is `0.5 / sqrt(self)`. The active result keeps the id of `self`.
    pub fn sqrt(self, tape: &mut Tape<V>, result: V, der: V) -> (r: ADNum<V>)
        ensures
            (final(tape)@, r) == unary_keep_id_model(old(tape)@, self, result, der),
    {
        self.unary_keep_id(tape, result, der)
    }

    /// The exponential; `der` is `exp(self)`.
    pub fn exp(self, tape: &mut Tape<V>, result: V, der: V) -> (r: ADNum<V>)
        ensures
            (final(tape)@, r) == unary_model(old(tape)@, self, result, der),
    {
        self.unary(tape, result, der)
    }

    /// The natural logarithm; `der` is `1 / self`.
    pub fn ln(self, tape: &mut Tape<V>, result: V, der: V) -> (r: ADNum<V>)
        ensures
            (final(tape)@, r) == unary_model(old(tape)@, self, result, der),
    {
        self.unary(tape, result, der)
    }

    /// The sine; `der` is `cos(self)`.
    pub fn sin(self, tape: &mut Tape<V>, result: V, der: V) -> (r: ADNum<V>)
        ensures
            (final(tape)@, r) == unary_model(old(tape)@, self, result, der),
    {
        self.unary(tape, result, der)
    }

    /// The cosine; `der` is `-sin(self)`.
    pub fn cos(self, tape: &mut Tape<V>, result: V, der: V) -> (r: ADNum<V>)
        ensures
            (final(tape)@, r) == unary_model(old(tape)@, self, result, der),
    {
        self.unary(tape, result, der)
    }

    /// The hyperbolic tangent; `der` is `1 - tanh(self)²`.
    pub fn tanh(self, tape: &mut Tape<V>, result: V, der: V) -> (r: ADNum<V>)
        ensures
            (final(tape)@, r) == unary_model(old(tape)@, self, result, der),
    {
        self.unary(tape, result, der)
    }

    /// The inverse hyperbolic sine; `der` is `1 / sqrt(self² + 1)`.
    pub fn asinh(self, tape: &mut Tape<V>, result: V, der: V) -> (r: ADNum<V>)
        ensures
            (final(tape)@, r) == unary_model(old(tape)@, self, result, der),
    {
        self.unary(tape, result, der)
    }

    /// The inverse hyperbolic cosine; `der` is `1 / sqrt(self² - 1)`.
    pub fn acosh(self, tape: &mut Tape<V>, result: V, der: V) -> (r: ADNum<V>)
        ensures
            (final(tape)@, r) == unary_model(old(tape)@, self, result, der),
    {
        self.unary(tape, result, der)
    }

    /// The inverse hyperbolic tangent; `der` is `1 / (1 - self²)`.
    pub fn atanh(self, tape: &mut Tape<V>, result: V, der: V) -> (r: ADNum<V>)
        ensures
            (final(tape)@, r) == unary_model(old(tape)@, self, result, der),
    {
        self.unary(tape, result, der)
    }

    fn record_single(tape: &mut Tape<V>, parent: usize, result: V, dl: V, dr: V) -> (r: ADNum<V>)
        ensures
            (final(tape)@, r) == single_model(old(tape)@, parent, result, dl, dr),
    {
        let id: usize = tape.len();
        tape.push_node(ADNode::new([dl, dr], [Some(parent), None], 1));
        ADNum::Active(result, id)
    }

    fn record_pair(tape: &mut Tape<V>, lhs: usize, rhs: usize, result: V, dl: V, dr: V) -> (r:
        ADNum<V>)
        ensures
            (final(tape)@, r) == pair_model(old(tape)@, lhs, rhs, result, dl, dr),
    {
        let id: usize = tape.len();
        tape.push_node(ADNode::new([dl, dr], [Some(lhs), Some(rhs)], 2));
        ADNum::Active(result, id)
    }
}

} // verus!
