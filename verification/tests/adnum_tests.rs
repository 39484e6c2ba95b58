use adnum::{ADNode, ADNum, Tape};

fn tape() -> Tape<f64> {
    Tape::new(0.0, 1.0, -1.0)
}

fn active_tape() -> Tape<f64> {
    let mut t = tape();
    t.activate();
    t
}

/// Seeds the adjoint of `y` with one and applies the reverse sweep.
fn adjoints(tape: &Tape<f64>, y: &ADNum<f64>) -> Vec<f64> {
    let mut adj = vec![0.0; tape.len()];
    adj[y.id()] = 1.0;
    for s in tape.adjoint_steps(y.id()) {
        adj[s.parent] += adj[s.node] * s.weight;
    }
    adj
}

fn add(x: ADNum<f64>, y: ADNum<f64>, t: &mut Tape<f64>) -> ADNum<f64> {
    x.add(y, t, x.value() + y.value())
}

fn sub(x: ADNum<f64>, y: ADNum<f64>, t: &mut Tape<f64>) -> ADNum<f64> {
    x.sub(y, t, x.value() - y.value())
}

fn mul(x: ADNum<f64>, y: ADNum<f64>, t: &mut Tape<f64>) -> ADNum<f64> {
    x.mul(y, t, x.value() * y.value())
}

fn div(x: ADNum<f64>, y: ADNum<f64>, t: &mut Tape<f64>) -> ADNum<f64> {
    let (a, b) = (x.value(), y.value());
    x.div(y, t, a / b, 1.0 / b, -a / (b * b))
}

// Tests of the original, on the plain (non-recording) tape.

#[test]
fn test_add() {
    let mut t = tape();
    let x = ADNum::new(&mut t, 2.0);
    let y = ADNum::new(&mut t, 3.0);
    let z = add(x, y, &mut t);
    assert_eq!(z.value(), 5.0);
}

#[test]
fn test_sub() {
    let mut t = tape();
    let x = ADNum::new(&mut t, 2.0);
    let y = ADNum::new(&mut t, 3.0);
    let z = sub(x, y, &mut t);
    assert_eq!(z.value(), -1.0);
}

#[test]
fn test_mul() {
    let mut t = tape();
    let x = ADNum::new(&mut t, 2.0);
    let y = ADNum::new(&mut t, 3.0);
    let z = mul(x, y, &mut t);
    assert_eq!(z.value(), 6.0);
}

#[test]
fn test_div() {
    let mut t = tape();
    let x = ADNum::new(&mut t, 2.0);
    let y = ADNum::new(&mut t, 3.0);
    let z = div(x, y, &mut t);
    assert_eq!(z.value(), 2.0 / 3.0);
}

#[test]
fn test_add_assign() {
    let mut t = tape();
    let mut x = ADNum::new(&mut t, 2.0);
    let y = ADNum::new(&mut t, 3.0);
    let s = x.value() + y.value();
    x.add_assign(y, &mut t, s);
    assert_eq!(x.value(), 5.0);
}

#[test]
fn test_sub_assign() {
    let mut t = tape();
    let mut x = ADNum::new(&mut t, 2.0);
    let y = ADNum::new(&mut t, 3.0);
    let d = x.value() - y.value();
    x.sub_assign(y, &mut t, d);
    assert_eq!(x.value(), -1.0);
}

#[test]
fn test_mul_assign() {
    let mut t = tape();
    let mut x = ADNum::new(&mut t, 2.0);
    let y = ADNum::new(&mut t, 3.0);
    let p = x.value() * y.value();
    x.mul_assign(y, &mut t, p);
    assert_eq!(x.value(), 6.0);
}

#[test]
fn test_div_assign() {
    let mut t = tape();
    let mut x = ADNum::new(&mut t, 2.0);
    let y = ADNum::new(&mut t, 3.0);
    let (a, b) = (x.value(), y.value());
    x.div_assign(y, &mut t, a / b, 1.0 / b, -a / (b * b));
    assert_eq!(x.value(), 2.0 / 3.0);
}

#[test]
fn test_eq() {
    let mut t = tape();
    let x = ADNum::new(&mut t, 2.0);
    let y = ADNum::new(&mut t, 2.0);
    assert_eq!(x.value(), y.value());
}

// Tests of the original, on a recording tape.

#[test]
fn test_tape_size() {
    let mut t = active_tape();
    let x = ADNum::new(&mut t, 2.0);
    let y = ADNum::new(&mut t, 3.0);
    let _ = add(x, y, &mut t);
    assert_eq!(t.len(), 3);
}

#[test]
fn test_derivative_add() {
    let mut t = active_tape();
    let x = ADNum::new(&mut t, 2.0);
    let y = ADNum::new(&mut t, 3.0);
    let z = add(x, y, &mut t);
    assert_eq!(adjoints(&t, &z), vec![1.0, 1.0, 1.0]);
}

#[test]
fn test_derivative_div() {
    let mut t = active_tape();
    let x = ADNum::new(&mut t, 2.0);
    let y = ADNum::new(&mut t, 3.0);
    let z = div(x, y, &mut t);
    let derivative: Vec<f64> = adjoints(&t, &z);
    assert_eq!(derivative, vec![1.0 / 3.0, -2.0 / 9.0, 1.0]);
}

#[test]
fn test_derivative_mul() {
    let mut t = active_tape();
    let x = ADNum::new(&mut t, 2.0);
    let y = ADNum::new(&mut t, 3.0);
    let z = mul(x, y, &mut t);
    assert_eq!(adjoints(&t, &z), vec![3.0, 2.0, 1.0]);
}

#[test]
fn test_derivative_sub() {
    let mut t = active_tape();
    let x = ADNum::new(&mut t, 2.0);
    let y = ADNum::new(&mut t, 3.0);
    let z = sub(x, y, &mut t);
    assert_eq!(adjoints(&t, &z), vec![1.0, -1.0, 1.0]);
}

#[test]
fn test_derivative_sin() {
    let mut t = active_tape();
    let v: f64 = 10.0;
    let x = ADNum::new(&mut t, v);
    let y = x.sin(&mut t, x.value().sin(), x.value().cos());
    assert_eq!(adjoints(&t, &y), vec![v.cos(), 1.0]);
}

#[test]
fn test_derivative_cos() {
    let mut t = active_tape();
    let v: f64 = 10.0;
    let x = ADNum::new(&mut t, v);
    let y = x.cos(&mut t, x.value().cos(), -x.value().sin());
    assert_eq!(adjoints(&t, &y), vec![-v.sin(), 1.0]);
}

#[test]
fn test_derivative_exp() {
    let mut t = active_tape();
    let x = ADNum::new(&mut t, 0.0);
    let y = x.exp(&mut t, x.value().exp(), x.value().exp());
    assert_eq!(adjoints(&t, &y), vec![1.0, 1.0]);

    let v: f64 = 10.0;
    let x = ADNum::new(&mut t, v);
    let y = x.exp(&mut t, x.value().exp(), x.value().exp());
    assert_eq!(adjoints(&t, &y), vec![0.0, 0.0, v.exp(), 1.0]);
}

#[test]
fn test_derivative_log() {
    let mut t = active_tape();
    let v: f64 = 10.0;
    let x = ADNum::new(&mut t, v);
    let y = x.ln(&mut t, x.value().ln(), 1.0 / x.value());
    assert_eq!(adjoints(&t, &y), vec![1.0 / v, 1.0]);
}

#[test]
fn adnum_test_derivative_add() {
    let mut t = active_tape();
    let x = ADNum::new(&mut t, 2.0);
    let mut y = ADNum::new(&mut t, 3.0);
    let s = y.value() + x.value();
    y.add_assign(x, &mut t, s);
    assert_eq!(adjoints(&t, &y), vec![1.0, 1.0, 1.0]);
}

#[test]
fn adnum_test_derivative_sub() {
    let mut t = active_tape();
    let x = ADNum::new(&mut t, 2.0);
    let mut y = ADNum::new(&mut t, 3.0);
    let d = y.value() - x.value();
    y.sub_assign(x, &mut t, d);
    assert_eq!(adjoints(&t, &y), vec![-1.0, 1.0, 1.0]);
}

#[test]
fn adnum_test_derivative_mul() {
    let mut t = active_tape();
    let x = ADNum::new(&mut t, 2.0);
    let mut y = ADNum::new(&mut t, 3.0);
    let p = y.value() * x.value();
    y.mul_assign(x, &mut t, p);
    assert_eq!(adjoints(&t, &y), vec![3.0, 2.0, 1.0]);
}

#[test]
fn adnum_test_derivative_div() {
    let mut t = active_tape();
    let x = ADNum::new(&mut t, 2.0);
    let mut y = ADNum::new(&mut t, 1.0);
    let (a, b) = (y.value(), x.value());
    y.div_assign(x, &mut t, a / b, 1.0 / b, -a / (b * b));
    let derivative = adjoints(&t, &y);
    assert_eq!(derivative, vec![-1.0 / 4.0, 0.5, 1.0]);
    let dy_dx = derivative.get(x.id()).unwrap();
    assert_eq!(*dy_dx, -1.0 / 4.0);
}
