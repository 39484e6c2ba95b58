use adnum::{ADNode, ADNum, Step, Tape};

fn active_tape() -> Tape<f64> {
    let mut t = Tape::new(0.0, 1.0, -1.0);
    t.activate();
    t
}

fn links(t: &Tape<f64>, i: usize) -> (f64, f64, Option<usize>, Option<usize>, usize) {
    let n = t.node(i);
    (n.lhs_der(), n.rhs_der(), n.lhs_id(), n.rhs_id(), n.n_args())
}

fn is_active(x: &ADNum<f64>) -> bool {
    matches!(x, ADNum::Active(_, _))
}

#[test]
fn node_getters_give_back_what_new_stored() {
    let n = ADNode::new([1.5, -2.5], [Some(3), None], 1);
    assert_eq!(n.lhs_der(), 1.5);
    assert_eq!(n.rhs_der(), -2.5);
    assert_eq!(n.lhs_id(), Some(3));
    assert_eq!(n.rhs_id(), None);
    assert_eq!(n.n_args(), 1);
}

#[test]
fn number_constructors_and_getters() {
    let a = ADNum::new_active(4.0, 7);
    assert_eq!(a.id(), 7);
    assert_eq!(a.value(), 4.0);
    let b = ADNum::new_inactive(-3.0);
    assert!(!is_active(&b));
    assert_eq!(b.value(), -3.0);
}

#[test]
fn tape_starts_idle_and_empty() {
    let mut t = Tape::new(0.0, 1.0, -1.0);
    assert!(!t.is_active());
    assert_eq!(t.len(), 0);
    assert_eq!((t.zero(), t.one(), t.minus_one()), (0.0, 1.0, -1.0));
    t.activate();
    assert!(t.is_active());
    assert_eq!(t.len(), 0);
}

#[test]
fn idle_tape_records_nothing() {
    let mut t = Tape::new(0.0, 1.0, -1.0);
    let x = ADNum::new(&mut t, 2.0);
    let y = ADNum::new_active(3.0, 0);
    let z = x.mul(y, &mut t, 6.0);
    let w = y.exp(&mut t, 3.0f64.exp(), 3.0f64.exp());
    let r = y.recip(&mut t, 1.0 / 3.0, -1.0 / 9.0);
    assert_eq!(t.len(), 0);
    assert!(!is_active(&x) && !is_active(&z) && !is_active(&w) && !is_active(&r));
    assert_eq!(z.value(), 6.0);
}

#[test]
fn leaf_is_recorded_with_unit_partials() {
    let mut t = active_tape();
    let x = ADNum::new(&mut t, 2.0);
    assert_eq!(x.id(), 0);
    assert_eq!(links(&t, 0), (1.0, 0.0, None, None, 0));
}

#[test]
fn inactive_plus_active_records_a_leaf_then_a_pair() {
    let mut t = active_tape();
    let b = ADNum::new(&mut t, 3.0);
    let a = ADNum::new_inactive(2.0);
    let z = a.add(b, &mut t, 5.0);
    assert_eq!(t.len(), 3);
    assert_eq!(z.id(), 2);
    assert_eq!(z.value(), 5.0);
    assert_eq!(links(&t, 1), (1.0, 0.0, None, None, 0));
    assert_eq!(links(&t, 2), (1.0, 1.0, Some(1), Some(0), 2));
}

#[test]
fn active_plus_inactive_records_one_argument() {
    let mut t = active_tape();
    let a = ADNum::new(&mut t, 3.0);
    let z = a.add(ADNum::new_inactive(2.0), &mut t, 5.0);
    assert_eq!(z.id(), 1);
    assert_eq!(links(&t, 1), (1.0, 0.0, Some(0), None, 1));
}

#[test]
fn inactive_minus_active_records_minus_one() {
    let mut t = active_tape();
    let b = ADNum::new(&mut t, 3.0);
    let z = ADNum::new_inactive(2.0).sub(b, &mut t, -1.0);
    assert_eq!(z.id(), 2);
    assert_eq!(links(&t, 2), (1.0, -1.0, Some(1), Some(0), 2));
}

#[test]
fn product_partials_are_the_other_values() {
    let mut t = active_tape();
    let a = ADNum::new(&mut t, 2.0);
    let z = a.mul(ADNum::new_inactive(5.0), &mut t, 10.0);
    assert_eq!(links(&t, 1), (5.0, 2.0, Some(0), None, 1));
    let w = ADNum::new_inactive(7.0).mul(a, &mut t, 14.0);
    assert_eq!(links(&t, 2), (7.0, 2.0, Some(0), None, 1));
    assert_eq!((z.id(), w.id()), (1, 2));
}

#[test]
fn inactive_over_active_is_not_recorded() {
    let mut t = active_tape();
    let b = ADNum::new(&mut t, 2.0);
    let z = ADNum::new_inactive(1.0).div(b, &mut t, 0.5, 0.5, -0.25);
    assert!(!is_active(&z));
    assert_eq!(z.value(), 0.5);
    assert_eq!(t.len(), 1);
}

#[test]
fn active_over_inactive_records_the_inverse() {
    let mut t = active_tape();
    let a = ADNum::new(&mut t, 1.0);
    let z = a.div(ADNum::new_inactive(4.0), &mut t, 0.25, 0.25, -0.0625);
    assert_eq!(z.id(), 1);
    assert_eq!(links(&t, 1), (0.25, 0.0, Some(0), None, 1));
}

#[test]
fn number_with_scalar_records_one_argument() {
    let mut t = active_tape();
    let a = ADNum::new(&mut t, 2.0);
    let s = a.add_scalar(&mut t, 5.0);
    let d = a.sub_scalar(&mut t, -1.0);
    let p = a.mul_scalar(3.0, &mut t, 6.0);
    let q = a.div_scalar(&mut t, 0.5, 0.25);
    assert_eq!((s.id(), d.id(), p.id(), q.id()), (1, 2, 3, 4));
    assert_eq!(links(&t, 1), (1.0, 0.0, Some(0), None, 1));
    assert_eq!(links(&t, 2), (1.0, 0.0, Some(0), None, 1));
    assert_eq!(links(&t, 3), (3.0, 2.0, Some(0), None, 1));
    assert_eq!(links(&t, 4), (0.25, 0.0, Some(0), None, 1));
    assert_eq!((s.value(), d.value(), p.value(), q.value()), (5.0, -1.0, 6.0, 0.5));
}

#[test]
fn scalar_with_number_records_the_scalar_first() {
    let mut t = active_tape();
    let b = ADNum::new(&mut t, 4.0);
    let s = ADNum::scalar_add(1.0, b, &mut t, 5.0);
    assert_eq!(s.id(), 2);
    assert_eq!(links(&t, 2), (1.0, 1.0, Some(1), Some(0), 2));
    let d = ADNum::scalar_sub(1.0, b, &mut t, -3.0);
    assert_eq!(links(&t, 4), (1.0, -1.0, Some(3), Some(0), 2));
    let p = ADNum::scalar_mul(3.0, b, &mut t, 12.0);
    assert_eq!(links(&t, 6), (4.0, 3.0, Some(5), Some(0), 2));
    let q = ADNum::scalar_div(2.0, b, &mut t, 0.5, 0.25, -0.125);
    assert_eq!(links(&t, 8), (0.25, -0.125, Some(7), Some(0), 2));
    assert_eq!((d.id(), p.id(), q.id()), (4, 6, 8));
    let c = ADNum::scalar_mul(3.0, ADNum::new_inactive(2.0), &mut t, 6.0);
    assert_eq!(c.id(), 10);
    assert_eq!(links(&t, 10), (2.0, 3.0, Some(9), None, 1));
}

#[test]
fn negation_records_minus_one() {
    let mut t = active_tape();
    let a = ADNum::new(&mut t, 2.0);
    let n = a.neg(&mut t, -2.0);
    assert_eq!(n.id(), 1);
    assert_eq!(n.value(), -2.0);
    assert_eq!(links(&t, 1), (-1.0, 0.0, Some(0), None, 1));
}

#[test]
fn unary_functions_record_their_partial() {
    let mut t = active_tape();
    let v: f64 = 0.5;
    let a = ADNum::new(&mut t, v);
    let r = [
        a.abs(&mut t, v.abs(), v.signum()),
        a.tanh(&mut t, v.tanh(), 1.0 - v.tanh().powi(2)),
        a.asinh(&mut t, v.asinh(), 1.0 / (v.powi(2) + 1.0).sqrt()),
        a.atanh(&mut t, v.atanh(), 1.0 / (1.0 - v.powi(2))),
        a.powi(&mut t, v.powi(3), 3.0 * v.powi(2)),
    ];
    for (k, x) in r.iter().enumerate() {
        assert_eq!(x.id(), k + 1);
        assert_eq!(t.node(k + 1).lhs_id(), Some(0));
    }
    assert_eq!(t.node(1).lhs_der(), 1.0);
    assert_eq!(t.node(5).lhs_der(), 0.75);
    let b = ADNum::new(&mut t, 2.0);
    let c = b.acosh(&mut t, 2.0f64.acosh(), 1.0 / 3.0f64.sqrt());
    assert_eq!(links(&t, 7), (1.0 / 3.0f64.sqrt(), 0.0, Some(6), None, 1));
    assert_eq!(c.value(), 2.0f64.acosh());
}

#[test]
fn fused_multiply_add_records_only_self() {
    let mut t = active_tape();
    let x = ADNum::new(&mut t, 2.0);
    let a = ADNum::new(&mut t, 3.0);
    let b = ADNum::new(&mut t, 4.0);
    let r = x.mul_add(a, &mut t, 10.0);
    assert_eq!(r.id(), 3);
    assert_eq!(links(&t, 3), (3.0, 0.0, Some(0), None, 1));
    let _ = b;
}

#[test]
fn reciprocal_of_an_inactive_number_is_a_fresh_input() {
    let mut t = active_tape();
    let r = ADNum::new_inactive(4.0).recip(&mut t, 0.25, -0.0625);
    assert_eq!(r.id(), 0);
    assert_eq!(links(&t, 0), (1.0, 0.0, None, None, 0));
    let p = ADNum::new_inactive(2.0).powi(&mut t, 8.0, 12.0);
    assert_eq!(p.id(), 1);
}

#[test]
fn power_and_root_keep_the_argument_id() {
    let mut t = active_tape();
    let a = ADNum::new(&mut t, 4.0);
    let s = a.sqrt(&mut t, 2.0, 0.25);
    assert_eq!(s.id(), 0);
    assert_eq!(s.value(), 2.0);
    assert_eq!(t.len(), 2);
    assert_eq!(links(&t, 1), (0.25, 0.0, Some(0), None, 1));
    let p = a.powf(&mut t, 64.0, 48.0);
    assert_eq!(p.id(), 0);
    assert_eq!(t.len(), 3);
    let q = ADNum::new_inactive(4.0).sqrt(&mut t, 2.0, 0.25);
    assert!(!is_active(&q));
    assert_eq!(t.len(), 3);
}

#[test]
fn sweep_visits_nodes_from_output_down() {
    let mut t = active_tape();
    let x = ADNum::new(&mut t, 3.0);
    let sq = x.mul(x, &mut t, 9.0);
    let y = ADNum::new(&mut t, 1.0);
    let z = sq.add(y, &mut t, 10.0);
    let steps = t.adjoint_steps(z.id());
    let got: Vec<(usize, usize, f64)> = steps.iter().map(|s: &Step<f64>| (s.node, s.parent, s.weight)).collect();
    assert_eq!(got, vec![(3, 1, 1.0), (3, 2, 1.0), (1, 0, 3.0), (1, 0, 3.0)]);
    // Every accumulation into a node comes before the ones out of it.
    for (a, sa) in steps.iter().enumerate() {
        for (b, sb) in steps.iter().enumerate() {
            if sb.parent == sa.node {
                assert!(b < a);
            }
        }
    }
    // Nodes after the output take no part.
    let early = t.adjoint_steps(sq.id());
    assert_eq!(early.len(), 2);
    assert!(early.iter().all(|s| s.node == 1 && s.parent == 0));
}
