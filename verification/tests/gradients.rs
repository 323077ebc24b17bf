use autodiff::{Backward, Product, Scalar, Sum, Tape, Value, Var};
use std::rc::Rc;

/// Single-precision floating point as the engine's scalar.
#[derive(Clone, Copy, Debug, PartialEq)]
struct Real(f32);

impl Scalar for Real {
    // `zero_value`, `sum_of` and `product_of` are what the library's contracts
    // are stated over; the engine itself calls `zero`, `plus` and `times`.
    fn zero_value() -> Self {
        Real(0.0)
    }

    fn sum_of(self, rhs: Self) -> Self {
        Real(self.0 + rhs.0)
    }

    fn product_of(self, rhs: Self) -> Self {
        Real(self.0 * rhs.0)
    }

    fn zero() -> Self {
        Real(0.0)
    }

    fn plus(self, rhs: Self) -> Self {
        Real(self.0 + rhs.0)
    }

    fn times(self, rhs: Self) -> Self {
        Real(self.0 * rhs.0)
    }
}

#[test]
fn var_grad() {
    let mut tape = Tape::new();
    let val = Var::new(&mut tape, Real(3.0));
    assert_eq!(val.data(&tape), Real(3.0));
    assert_eq!(val.grad(&tape), Real(0.0));

    val.backward(&mut tape, Real(1.0));
    assert_eq!(val.grad(&tape), Real(1.0));
}

#[test]
fn add_grad() {
    let mut tape = Tape::new();
    let a = Var::new(&mut tape, Real(3.0));
    let b = Var::new(&mut tape, Real(2.0));
    let c = a.clone().add(&mut tape, b.clone());

    assert_eq!(c.data(&tape), Real(5.0));

    c.backward(&mut tape, Real(1.0));
    assert_eq!(c.grad(&tape), Real(1.0));
    assert_eq!(a.grad(&tape), Real(1.0));
    assert_eq!(b.grad(&tape), Real(1.0));
}

#[test]
fn twice_add_grad() {
    let mut tape = Tape::new();
    let a = Var::new(&mut tape, Real(3.0));
    let c = a.clone().add(&mut tape, a.clone());

    assert_eq!(c.data(&tape), Real(6.0));

    c.backward(&mut tape, Real(1.0));
    assert_eq!(c.grad(&tape), Real(1.0));
    assert_eq!(a.grad(&tape), Real(2.0));
}

#[test]
fn mul_grad() {
    let mut tape = Tape::new();
    let a = Var::new(&mut tape, Real(3.0));
    let b = Var::new(&mut tape, Real(2.0));
    let c = Product::new(&mut tape, a.clone(), b.clone());

    assert_eq!(c.data(&tape), Real(6.0));

    c.backward(&mut tape, Real(1.0));
    assert_eq!(c.grad(&tape), Real(1.0));
    assert_eq!(a.grad(&tape), Real(2.0));
    assert_eq!(b.grad(&tape), Real(3.0));
}

#[test]
fn twice_mul_grad() {
    let mut tape = Tape::new();
    let a = Var::new(&mut tape, Real(3.0));
    let c = Product::new(&mut tape, a.clone(), a.clone());

    assert_eq!(c.data(&tape), Real(9.0));

    c.backward(&mut tape, Real(1.0));
    assert_eq!(c.grad(&tape), Real(1.0));
    assert_eq!(a.grad(&tape), Real(6.0));
}

#[test]
fn lots_add_mul_grad() {
    let mut tape = Tape::new();
    let a = Var::new(&mut tape, Real(3.0));
    let b = Var::new(&mut tape, Real(2.0));
    let c = Var::new(&mut tape, Real(4.0));

    // d = a^2 + bc
    let aa = a.clone().mul(&mut tape, a.clone());
    let bc = b.clone().mul(&mut tape, c.clone());
    let d = aa.add(&mut tape, bc);

    assert_eq!(d.data(&tape), Real(17.0));

    d.backward(&mut tape, Real(1.0));
    assert_eq!(d.grad(&tape), Real(1.0));
    assert_eq!(a.grad(&tape), Real(6.0));
    assert_eq!(b.grad(&tape), Real(4.0));
    assert_eq!(c.grad(&tape), Real(2.0));
}

#[test]
fn sum_new_adds_the_operand_values() {
    let mut tape = Tape::new();
    let a = Var::new(&mut tape, Real(1.25));
    let b = Var::new(&mut tape, Real(-4.5));
    let c = Sum::new(&mut tape, a, b);
    assert_eq!(c.data(&tape), Real(-3.25));
    assert_eq!(c.grad(&tape), Real(0.0));
    assert_eq!(tape.len(), 3);
}

#[test]
fn product_new_multiplies_the_operand_values() {
    let mut tape = Tape::new();
    let a = Var::new(&mut tape, Real(1.5));
    let b = Var::new(&mut tape, Real(-4.0));
    let c = Product::new(&mut tape, a, b);
    assert_eq!(c.data(&tape), Real(-6.0));
    assert_eq!(c.grad(&tape), Real(0.0));
}

#[test]
fn no_pass_leaves_every_gradient_at_zero() {
    let mut tape = Tape::new();
    let a = Var::new(&mut tape, Real(3.0));
    let b = Var::new(&mut tape, Real(2.0));
    let c = a.mul(&mut tape, b);
    assert_eq!(a.grad(&tape), Real(0.0));
    assert_eq!(b.grad(&tape), Real(0.0));
    assert_eq!(c.grad(&tape), Real(0.0));
}

#[test]
fn a_pass_changes_no_value() {
    let mut tape = Tape::new();
    let a = Var::new(&mut tape, Real(3.0));
    let b = Var::new(&mut tape, Real(2.0));
    let c = a.mul(&mut tape, b);
    c.backward(&mut tape, Real(1.0));
    c.backward(&mut tape, Real(0.5));
    assert_eq!(a.data(&tape), Real(3.0));
    assert_eq!(b.data(&tape), Real(2.0));
    assert_eq!(c.data(&tape), Real(6.0));
    assert_eq!(tape.len(), 3);
}

#[test]
fn a_second_pass_adds_to_the_first() {
    let mut tape = Tape::new();
    let a = Var::new(&mut tape, Real(3.0));
    let b = Var::new(&mut tape, Real(2.0));
    let c = Var::new(&mut tape, Real(4.0));
    let aa = a.mul(&mut tape, a);
    let bc = b.mul(&mut tape, c);
    let d = aa.add(&mut tape, bc);

    d.backward(&mut tape, Real(1.0));
    d.backward(&mut tape, Real(1.0));
    assert_eq!(d.grad(&tape), Real(2.0));
    assert_eq!(aa.grad(&tape), Real(2.0));
    assert_eq!(bc.grad(&tape), Real(2.0));
    assert_eq!(a.grad(&tape), Real(12.0));
    assert_eq!(b.grad(&tape), Real(8.0));
    assert_eq!(c.grad(&tape), Real(4.0));
}

#[test]
fn the_seed_scales_every_gradient() {
    let mut tape = Tape::new();
    let a = Var::new(&mut tape, Real(3.0));
    let b = Var::new(&mut tape, Real(2.0));
    let c = a.mul(&mut tape, b);
    c.backward(&mut tape, Real(0.5));
    assert_eq!(c.grad(&tape), Real(0.5));
    assert_eq!(a.grad(&tape), Real(1.0));
    assert_eq!(b.grad(&tape), Real(1.5));
}

#[test]
fn a_node_outside_the_expression_keeps_its_gradient() {
    let mut tape = Tape::new();
    let a = Var::new(&mut tape, Real(3.0));
    let b = Var::new(&mut tape, Real(2.0));
    let other = Var::new(&mut tape, Real(7.0));
    other.backward(&mut tape, Real(0.25));
    let c = a.add(&mut tape, b);
    c.backward(&mut tape, Real(1.0));
    assert_eq!(other.grad(&tape), Real(0.25));
    assert_eq!(other.data(&tape), Real(7.0));
}

#[test]
fn a_copied_composite_shares_its_cell() {
    let mut tape = Tape::new();
    let a = Var::new(&mut tape, Real(3.0));
    let b = Var::new(&mut tape, Real(2.0));
    let p = a.mul(&mut tape, b);
    let q = p.clone().add(&mut tape, p.clone());
    assert_eq!(q.data(&tape), Real(12.0));

    q.backward(&mut tape, Real(1.0));
    assert_eq!(q.grad(&tape), Real(1.0));
    assert_eq!(p.grad(&tape), Real(2.0));
    assert_eq!(a.grad(&tape), Real(4.0));
    assert_eq!(b.grad(&tape), Real(6.0));
}

#[test]
fn a_variable_shared_by_two_expressions_collects_from_both() {
    let mut tape = Tape::new();
    let a = Var::new(&mut tape, Real(3.0));
    let b = Var::new(&mut tape, Real(2.0));
    let s = a.add(&mut tape, b);
    let p = a.mul(&mut tape, b);
    s.backward(&mut tape, Real(1.0));
    p.backward(&mut tape, Real(1.0));
    assert_eq!(a.grad(&tape), Real(3.0));
    assert_eq!(b.grad(&tape), Real(4.0));
}

#[test]
fn nested_products_apply_the_chain_rule() {
    let mut tape = Tape::new();
    let a = Var::new(&mut tape, Real(2.0));
    let b = Var::new(&mut tape, Real(3.0));
    let c = Var::new(&mut tape, Real(5.0));
    // e = (a * b) * c
    let ab = a.mul(&mut tape, b);
    let e = ab.mul(&mut tape, c);
    assert_eq!(e.data(&tape), Real(30.0));
    e.backward(&mut tape, Real(1.0));
    assert_eq!(ab.grad(&tape), Real(5.0));
    assert_eq!(a.grad(&tape), Real(15.0));
    assert_eq!(b.grad(&tape), Real(10.0));
    assert_eq!(c.grad(&tape), Real(6.0));
}

#[test]
fn infinite_and_undefined_values_pass_through() {
    let mut tape = Tape::new();
    let a = Var::new(&mut tape, Real(f32::INFINITY));
    let b = Var::new(&mut tape, Real(0.0));
    let c = a.mul(&mut tape, b);
    assert!(c.data(&tape).0.is_nan());
    c.backward(&mut tape, Real(1.0));
    assert_eq!(a.grad(&tape), Real(0.0));
    assert_eq!(b.grad(&tape), Real(f32::INFINITY));

    let n = Var::new(&mut tape, Real(f32::NAN));
    assert!(n.data(&tape).0.is_nan());
    assert_eq!(n.grad(&tape), Real(0.0));
    n.backward(&mut tape, Real(f32::NAN));
    assert!(n.grad(&tape).0.is_nan());
}

#[test]
fn rounding_can_keep_two_passes_from_doubling() {
    // a receives 1 from the sum and b from the product; with this b the
    // additions round, and two passes leave less than twice one pass.
    let tiny = Real(0.75 * f32::EPSILON);
    let mut once = Tape::new();
    let a = Var::new(&mut once, Real(1.0));
    let b = Var::new(&mut once, tiny);
    let ab = a.mul(&mut once, b);
    let d = a.add(&mut once, ab);
    d.backward(&mut once, Real(1.0));
    let single = a.grad(&once);
    assert_eq!(single, Real(1.0 + f32::EPSILON));

    d.backward(&mut once, Real(1.0));
    let double = a.grad(&once);
    assert_eq!(double, Real(2.0));
    assert_ne!(double, Real(single.0 + single.0));
}

#[test]
fn value_cell_accumulates() {
    let mut cell = Value::new(Real(3.0));
    assert_eq!(cell.data(), Real(3.0));
    assert_eq!(cell.grad(), Real(0.0));
    cell.backward(Real(1.5));
    cell.backward(Real(2.0));
    assert_eq!(cell.grad(), Real(3.5));
    assert_eq!(cell.data(), Real(3.0));
}

#[test]
fn new_tape_is_empty() {
    let tape: Tape<Real> = Tape::new();
    assert_eq!(tape.len(), 0);
}

#[test]
fn within_tells_whether_a_node_fits() {
    let mut long = Tape::new();
    let a = Var::new(&mut long, Real(3.0));
    let b = Var::new(&mut long, Real(2.0));
    let c = a.add(&mut long, b);
    let p = c.mul(&mut long, a);
    assert!(a.within(&long));
    assert!(c.within(&long));
    assert!(p.within(&long));

    let mut short = Tape::new();
    assert!(!a.within(&short));
    let _ = Var::new(&mut short, Real(1.0));
    assert!(a.within(&short));
    assert!(!b.within(&short));
    assert!(!c.within(&short));
    let _ = Var::new(&mut short, Real(1.0));
    let _ = Var::new(&mut short, Real(1.0));
    assert!(c.within(&short));
    assert!(!p.within(&short));
}

#[test]
fn a_counted_reference_names_the_cells_of_its_node() {
    let mut tape = Tape::new();
    let a = Var::new(&mut tape, Real(3.0));
    let b = Var::new(&mut tape, Real(2.0));
    let shared = Rc::new(a.add(&mut tape, b));
    assert!(shared.within(&tape));
    assert_eq!(shared.data(&tape), Real(5.0));

    let square = Product::new(&mut tape, shared.clone(), shared.clone());
    assert_eq!(square.data(&tape), Real(25.0));

    square.backward(&mut tape, Real(1.0));
    assert_eq!(square.grad(&tape), Real(1.0));
    assert_eq!(shared.grad(&tape), Real(10.0));
    assert_eq!(a.grad(&tape), Real(10.0));
    assert_eq!(b.grad(&tape), Real(10.0));
}

#[test]
fn sums_of_sums_pass_the_seed_unscaled() {
    let mut tape = Tape::new();
    let a = Var::new(&mut tape, Real(1.0));
    let b = Var::new(&mut tape, Real(2.0));
    let c = Var::new(&mut tape, Real(4.0));
    let ab = a.add(&mut tape, b);
    let abc = ab.add(&mut tape, c);
    let twice = abc.add(&mut tape, ab);
    assert_eq!(twice.data(&tape), Real(10.0));

    twice.backward(&mut tape, Real(0.5));
    assert_eq!(twice.grad(&tape), Real(0.5));
    assert_eq!(abc.grad(&tape), Real(0.5));
    assert_eq!(ab.grad(&tape), Real(1.0));
    assert_eq!(a.grad(&tape), Real(1.0));
    assert_eq!(b.grad(&tape), Real(1.0));
    assert_eq!(c.grad(&tape), Real(0.5));
}

#[test]
fn a_negative_zero_seed_is_added_to_zero() {
    let mut tape = Tape::new();
    let a = Var::new(&mut tape, Real(3.0));
    a.backward(&mut tape, Real(-0.0));
    assert!(a.grad(&tape).0.is_sign_positive());
    assert_eq!(a.grad(&tape), Real(0.0));
}
