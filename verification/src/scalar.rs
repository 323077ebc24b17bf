//! The numbers that values and gradients are made of.

use vstd::prelude::*;

verus! {

/// A number the engine can differentiate over.
///
/// The engine only ever starts a gradient at zero, adds two numbers and
/// multiplies two numbers. Each of the three is a function of its operands:
/// the contracts of the whole crate are stated over `zero_value`, `sum_of`
/// and `product_of`, in the order in which the operations are carried out,
/// and assume no algebraic law of them. An implementation whose arithmetic
/// rounds is therefore as welcome as an exact one.
pub trait Scalar: Sized + Copy {
    /// The gradient of a cell that nothing has reached yet.
    spec fn zero_value() -> Self;

    /// `self + rhs`.
    spec fn sum_of(self, rhs: Self) -> Self;

    /// `self * rhs`.
    spec fn product_of(self, rhs: Self) -> Self;

    /// Computes `zero_value`.
    fn zero() -> (r: Self)
        ensures
            r == Self::zero_value(),
    ;

    /// Computes `sum_of`.
    fn plus(self, rhs: Self) -> (r: Self)
        ensures
            r == self.sum_of(rhs),
    ;

    /// Computes `product_of`.
    fn times(self, rhs: Self) -> (r: Self)
        ensures
            r == self.product_of(rhs),
    ;
}

/// A scalar whose addition is exact: associative, commutative, with
/// `zero_value` as its neutral element.
pub trait ExactSum: Scalar {
    proof fn sum_commutes(a: Self, b: Self)
        ensures
            a.sum_of(b) == b.sum_of(a),
    ;

    proof fn sum_associates(a: Self, b: Self, c: Self)
        ensures
            a.sum_of(b).sum_of(c) == a.sum_of(b.sum_of(c)),
    ;

    proof fn zero_is_neutral(a: Self)
        ensures
            a.sum_of(Self::zero_value()) == a,
    ;
}

/// A scalar whose arithmetic is exact throughout: on top of the laws of
/// `ExactSum`, multiplication is associative and commutative, distributes
/// over addition, and gives zero with zero.
pub trait Exact: ExactSum {
    proof fn product_commutes(a: Self, b: Self)
        ensures
            a.product_of(b) == b.product_of(a),
    ;

    proof fn product_associates(a: Self, b: Self, c: Self)
        ensures
            a.product_of(b).product_of(c) == a.product_of(b.product_of(c)),
    ;

    proof fn product_distributes(a: Self, b: Self, c: Self)
        ensures
            a.product_of(b.sum_of(c)) == a.product_of(b).sum_of(a.product_of(c)),
    ;

    proof fn zero_annihilates(a: Self)
        ensures
            a.product_of(Self::zero_value()) == Self::zero_value(),
    ;
}

/// Where arithmetic is exact, a factor can be moved to the front of a
/// product: `a * (b * c) == b * (a * c)`.
pub proof fn lemma_product_swaps<S: Exact>(a: S, b: S, c: S)
    ensures
        a.product_of(b.product_of(c)) == b.product_of(a.product_of(c)),
{
    S::product_associates(a, b, c);
    S::product_commutes(a, b);
    S::product_associates(b, a, c);
}

/// Integers modulo 2^64, in two's complement.
impl Scalar for i64 {
    open spec fn zero_value() -> i64 {
        0
    }

    open spec fn sum_of(self, rhs: i64) -> i64 {
        vstd::wrapping::i64_specs::wrapping_add(self, rhs)
    }

    open spec fn product_of(self, rhs: i64) -> i64 {
        vstd::wrapping::i64_specs::wrapping_mul(self, rhs)
    }

    fn zero() -> (r: i64) {
        0
    }

    fn plus(self, rhs: i64) -> (r: i64) {
        self.wrapping_add(rhs)
    }

    fn times(self, rhs: i64) -> (r: i64) {
        self.wrapping_mul(rhs)
    }
}

impl ExactSum for i64 {
    proof fn sum_commutes(a: i64, b: i64) {
    }

    proof fn sum_associates(a: i64, b: i64, c: i64) {
    }

    proof fn zero_is_neutral(a: i64) {
    }
}

/// The sum of two `i64` wraps to the representative of the exact sum.
proof fn lemma_wrapping_add_crops(a: i64, b: i64)
    ensures
        vstd::wrapping::i64_specs::wrapping_add(a, b) == vstd::wrapping::i64_specs::signed_crop(
            a + b,
        ),
{
    let m: int = 0x1_0000_0000_0000_0000;
    let z: int = a + b;
    if z > i64::MAX {
        vstd::arithmetic::div_mod::lemma_small_mod(z as nat, m as nat);
    } else if z < 0 {
        vstd::arithmetic::div_mod::lemma_mod_multiples_vanish(1, z, m);
        vstd::arithmetic::div_mod::lemma_small_mod((z + m) as nat, m as nat);
    } else {
        vstd::arithmetic::div_mod::lemma_small_mod(z as nat, m as nat);
    }
}

/// An integer and the `i64` it crops to have the same remainder modulo
/// 2^64, so that integers with the same remainder crop to the same `i64`.
proof fn lemma_crop(z: int)
    ensures
        (vstd::wrapping::i64_specs::signed_crop(z) as int) % 0x1_0000_0000_0000_0000
            == z % 0x1_0000_0000_0000_0000,
{
    let m: int = 0x1_0000_0000_0000_0000;
    vstd::arithmetic::div_mod::lemma_mod_bound(z, m);
    let r = z % m;
    if r > i64::MAX {
        vstd::arithmetic::div_mod::lemma_mod_multiples_vanish(-1, r, m);
        vstd::arithmetic::div_mod::lemma_small_mod(r as nat, m as nat);
    } else {
        vstd::arithmetic::div_mod::lemma_small_mod(r as nat, m as nat);
    }
}

impl Exact for i64 {
    proof fn product_commutes(a: i64, b: i64) {
        assert(a * b == b * a) by (nonlinear_arith);
    }

    proof fn product_associates(a: i64, b: i64, c: i64) {
        let m: int = 0x1_0000_0000_0000_0000;
        let ab = a.product_of(b);
        let bc = b.product_of(c);
        lemma_crop(a * b);
        lemma_crop(b * c);
        vstd::arithmetic::div_mod::lemma_mul_mod_noop(ab as int, c as int, m);
        vstd::arithmetic::div_mod::lemma_mul_mod_noop(a * b, c as int, m);
        vstd::arithmetic::div_mod::lemma_mul_mod_noop(a as int, bc as int, m);
        vstd::arithmetic::div_mod::lemma_mul_mod_noop(a as int, b * c, m);
        assert((a * b) * c == a * (b * c)) by (nonlinear_arith);
    }

    proof fn product_distributes(a: i64, b: i64, c: i64) {
        let m: int = 0x1_0000_0000_0000_0000;
        let ab = a.product_of(b);
        let ac = a.product_of(c);
        let bc = b.sum_of(c);
        lemma_wrapping_add_crops(b, c);
        lemma_wrapping_add_crops(ab, ac);
        lemma_crop(b + c);
        lemma_crop(a * b);
        lemma_crop(a * c);
        vstd::arithmetic::div_mod::lemma_mul_mod_noop(a as int, bc as int, m);
        vstd::arithmetic::div_mod::lemma_mul_mod_noop(a as int, b + c, m);
        vstd::arithmetic::div_mod::lemma_add_mod_noop(ab as int, ac as int, m);
        vstd::arithmetic::div_mod::lemma_add_mod_noop(a * b, a * c, m);
        assert(a * (b + c) == a * b + a * c) by (nonlinear_arith);
    }

    proof fn zero_annihilates(a: i64) {
        assert(a * 0 == 0) by (nonlinear_arith);
    }
}

} // verus!
