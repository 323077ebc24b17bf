//! The sum of two nodes.

use vstd::prelude::*;
use crate::backward::Backward;
use crate::flow::Flow;
use crate::product::Product;
use crate::scalar::{Exact, Scalar};
use crate::var::{Tape, Var};

verus! {

/// The node `left + right`. It has a cell of its own for its value and
/// gradient, and keeps its operands as they were given: an operand that is
/// a copy of another node names that node's cells.
pub struct Sum<L: Backward, R: Backward<Scalar = L::Scalar>> {
    var: Var<L::Scalar>,
    left: L,
    right: R,
}

impl<L: Backward + Clone, R: Backward<Scalar = L::Scalar> + Clone> Clone for Sum<L, R> {
    /// A copy names the cell of the sum it was made from, and has copies
    /// of its operands as its operands.
    fn clone(&self) -> (copy: Self)
        ensures
            copy.own() == self.own(),
            cloned(self.lhs(), copy.lhs()),
            cloned(self.rhs(), copy.rhs()),
            copy.lhs() == self.lhs() && copy.rhs() == self.rhs() ==> copy == *self,
    {
        Sum { var: self.var, left: self.left.clone(), right: self.right.clone() }
    }
}

impl<L: Backward + Copy, R: Backward<Scalar = L::Scalar> + Copy> Copy for Sum<L, R> {

}

impl<L: Backward, R: Backward<Scalar = L::Scalar>> Sum<L, R> {
    /// The variable that stands for the sum itself.
    pub closed spec fn own(&self) -> Var<L::Scalar> {
        self.var
    }

    /// The left operand.
    pub closed spec fn lhs(&self) -> L {
        self.left
    }

    /// The right operand.
    pub closed spec fn rhs(&self) -> R {
        self.right
    }

    /// Builds `left + right`: the value is computed once, here, and put in
    /// a fresh cell at the end of the tape, with no gradient yet.
    pub fn new(tape: &mut Tape<L::Scalar>, left: L, right: R) -> (sum: Self)
        requires
            left.fits(old(tape)@.len()),
            right.fits(old(tape)@.len()),
        ensures
            sum.own().index() == old(tape)@.len(),
            sum.lhs() == left,
            sum.rhs() == right,
            sum.fits(final(tape)@.len()),
            final(tape).extends(
                old(tape),
                old(tape).values()[left.cell()].sum_of(old(tape).values()[right.cell()]),
            ),
    {
        let data = left.data(tape).plus(right.data(tape));
        let var = Var::new(tape, data);
        proof {
            left.lemma_fits_longer(old(tape)@.len(), tape@.len());
            right.lemma_fits_longer(old(tape)@.len(), tape@.len());
        }
        Self { var, left, right }
    }

    /// `self + rhs`, built as `Sum::new` builds it.
    pub fn add<T: Backward<Scalar = L::Scalar>>(self, tape: &mut Tape<L::Scalar>, rhs: T) -> (sum: Sum<Self, T>)
        requires
            self.fits(old(tape)@.len()),
            rhs.fits(old(tape)@.len()),
        ensures
            sum.own().index() == old(tape)@.len(),
            sum.lhs() == self,
            sum.rhs() == rhs,
            sum.fits(final(tape)@.len()),
            final(tape).extends(
                old(tape),
                old(tape).values()[self.cell()].sum_of(old(tape).values()[rhs.cell()]),
            ),
    {
        Sum::new(tape, self, rhs)
    }

    /// `self * rhs`, built as `Product::new` builds it.
    pub fn mul<T: Backward<Scalar = L::Scalar>>(self, tape: &mut Tape<L::Scalar>, rhs: T) -> (product: Product<Self, T>)
        requires
            self.fits(old(tape)@.len()),
            rhs.fits(old(tape)@.len()),
        ensures
            product.own().index() == old(tape)@.len(),
            product.lhs() == self,
            product.rhs() == rhs,
            product.fits(final(tape)@.len()),
            final(tape).extends(
                old(tape),
                old(tape).values()[self.cell()].product_of(old(tape).values()[rhs.cell()]),
            ),
    {
        Product::new(tape, self, rhs)
    }
}

impl<L: Backward, R: Backward<Scalar = L::Scalar>> Backward for Sum<L, R> {
    type Scalar = L::Scalar;

    open spec fn fits(&self, len: nat) -> bool {
        &&& self.own().index() < len
        &&& self.lhs().fits(len)
        &&& self.rhs().fits(len)
    }

    open spec fn cell(&self) -> int {
        self.own().index() as int
    }

    /// The seed goes to the sum's own cell, then unchanged through the left
    /// operand, then unchanged through the right one.
    open spec fn flows(&self, values: Seq<L::Scalar>, seed: L::Scalar) -> Seq<Flow<L::Scalar>> {
        self.own().flows(values, seed)
            + self.lhs().flows(values, seed)
            + self.rhs().flows(values, seed)
    }

    proof fn lemma_cell_fits(&self, len: nat) {
    }

    proof fn lemma_flows_fit(&self, values: Seq<L::Scalar>, seed: L::Scalar) {
        self.lhs().lemma_flows_fit(values, seed);
        self.rhs().lemma_flows_fit(values, seed);
    }

    proof fn lemma_fits_longer(&self, len: nat, longer: nat) {
        self.lhs().lemma_fits_longer(len, longer);
        self.rhs().lemma_fits_longer(len, longer);
    }

    proof fn lemma_flows_prefix(&self, values: Seq<L::Scalar>, longer: Seq<L::Scalar>, seed: L::Scalar) {
        self.lhs().lemma_cell_fits(values.len());
        self.rhs().lemma_cell_fits(values.len());
        self.lhs().lemma_flows_prefix(values, longer, seed);
        self.rhs().lemma_flows_prefix(values, longer, seed);
    }

    proof fn lemma_flows_scale(
        &self,
        values: Seq<L::Scalar>,
        factor: L::Scalar,
        seed: L::Scalar,
        cell: int,
    ) where L::Scalar: Exact {
        let scaled = factor.product_of(seed);
        let to_own = self.own().flows(values, seed);
        let left = self.lhs().flows(values, seed);
        let right = self.rhs().flows(values, seed);
        let scaled_to_own = self.own().flows(values, scaled);
        let scaled_left = self.lhs().flows(values, scaled);
        let scaled_right = self.rhs().flows(values, scaled);
        let t_own = crate::flow::total(to_own, cell);
        let t_left = crate::flow::total(left, cell);
        let t_right = crate::flow::total(right, cell);
        self.var.lemma_flows_scale(values, factor, seed, cell);
        self.lhs().lemma_flows_scale(values, factor, seed, cell);
        self.rhs().lemma_flows_scale(values, factor, seed, cell);
        crate::flow::lemma_total_concat(to_own, left, cell);
        crate::flow::lemma_total_concat(to_own + left, right, cell);
        crate::flow::lemma_total_concat(scaled_to_own, scaled_left, cell);
        crate::flow::lemma_total_concat(scaled_to_own + scaled_left, scaled_right, cell);
        L::Scalar::product_distributes(factor, t_own, t_left);
        L::Scalar::product_distributes(factor, t_own.sum_of(t_left), t_right);
    }

    fn within(&self, tape: &Tape<L::Scalar>) -> (b: bool) {
        self.var.within(tape) && self.left.within(tape) && self.right.within(tape)
    }

    fn backward(&self, tape: &mut Tape<L::Scalar>, grad: L::Scalar) {
        let ghost values = tape.values();
        let ghost start = tape.grads();
        let ghost to_own = self.own().flows(values, grad);
        let ghost to_left = self.lhs().flows(values, grad);
        let ghost to_right = self.rhs().flows(values, grad);
        self.var.backward(tape, grad);
        self.left.backward(tape, grad);
        self.right.backward(tape, grad);
        proof {
            crate::flow::lemma_settle_concat(start, to_own, to_left);
            crate::flow::lemma_settle_concat(start, to_own + to_left, to_right);
        }
    }

    fn data(&self, tape: &Tape<L::Scalar>) -> (r: L::Scalar) {
        self.var.data(tape)
    }

    fn grad(&self, tape: &Tape<L::Scalar>) -> (r: L::Scalar) {
        self.var.grad(tape)
    }
}

} // verus!
