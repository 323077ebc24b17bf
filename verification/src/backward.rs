//! What every node of an expression can do.

use vstd::prelude::*;
use std::rc::Rc;
use crate::flow::Flow;
use crate::scalar::{Exact, Scalar};
use crate::var::Tape;

verus! {

/// A node of an expression: it names a cell of a tape, which holds the
/// value computed when the node was built and the gradient accumulated
/// since, and it knows how to send a gradient on to what it was built from.
pub trait Backward: Sized {
    /// The numbers that this node computes with.
    type Scalar: Scalar;

    /// Whether every cell that this node names, itself or through its
    /// operands, is among the first `len` cells of a tape.
    spec fn fits(&self, len: nat) -> bool;

    /// The cell that holds this node's own value and gradient.
    spec fn cell(&self) -> int;

    /// The flows that one backward pass from this node sends out, in the
    /// order in which they arrive, on a tape holding `values`.
    spec fn flows(&self, values: Seq<Self::Scalar>, seed: Self::Scalar) -> Seq<Flow<Self::Scalar>>;

    /// A node that fits a tape has its own cell on it.
    proof fn lemma_cell_fits(&self, len: nat)
        requires
            self.fits(len),
        ensures
            0 <= self.cell() < len,
    ;

    /// A node that fits a tape sends every flow to a cell of that tape.
    proof fn lemma_flows_fit(&self, values: Seq<Self::Scalar>, seed: Self::Scalar)
        requires
            self.fits(values.len()),
        ensures
            crate::flow::on_tape(self.flows(values, seed), values.len()),
    ;

    /// A node that fits a tape fits every longer one.
    proof fn lemma_fits_longer(&self, len: nat, longer: nat)
        requires
            self.fits(len),
            len <= longer,
        ensures
            self.fits(longer),
    ;

    /// What a node sends depends on the values of the tape it fits, not on
    /// the cells that were added after them.
    proof fn lemma_flows_prefix(&self, values: Seq<Self::Scalar>, longer: Seq<Self::Scalar>, seed: Self::Scalar)
        requires
            self.fits(values.len()),
            values.is_prefix_of(longer),
        ensures
            self.flows(longer, seed) == self.flows(values, seed),
    ;

    /// Where arithmetic is exact, a backward pass is linear in its seed: a
    /// seed scaled by `factor` brings every cell `factor` times the total.
    proof fn lemma_flows_scale(
        &self,
        values: Seq<Self::Scalar>,
        factor: Self::Scalar,
        seed: Self::Scalar,
        cell: int,
    ) where Self::Scalar: Exact
        ensures
            crate::flow::total(self.flows(values, factor.product_of(seed)), cell)
                == factor.product_of(crate::flow::total(self.flows(values, seed), cell)),
    ;

    /// Tells whether this node fits `tape`: the test to make before using a
    /// node on a tape that it may not have been built on.
    fn within(&self, tape: &Tape<Self::Scalar>) -> (b: bool)
        ensures
            b == self.fits(tape@.len()),
    ;

    /// Sends `grad` backward from this node: every value on the tape stays
    /// as it is, and the gradients take in this node's flows, in order.
    fn backward(&self, tape: &mut Tape<Self::Scalar>, grad: Self::Scalar)
        requires
            self.fits(old(tape)@.len()),
        ensures
            final(tape).absorbs(old(tape), self.flows(old(tape).values(), grad)),
    ;

    /// The value computed when this node was built.
    fn data(&self, tape: &Tape<Self::Scalar>) -> (r: Self::Scalar)
        requires
            self.fits(tape@.len()),
        ensures
            r == tape.values()[self.cell()],
    ;

    /// The gradient accumulated in this node's cell so far.
    fn grad(&self, tape: &Tape<Self::Scalar>) -> (r: Self::Scalar)
        requires
            self.fits(tape@.len()),
        ensures
            r == tape.grads()[self.cell()],
    ;
}

/// A node behind a counted reference is the node it refers to: every
/// holder of the reference names the same cells.
impl<N: Backward> Backward for Rc<N> {
    type Scalar = N::Scalar;

    open spec fn fits(&self, len: nat) -> bool {
        (**self).fits(len)
    }

    open spec fn cell(&self) -> int {
        (**self).cell()
    }

    open spec fn flows(&self, values: Seq<N::Scalar>, seed: N::Scalar) -> Seq<Flow<N::Scalar>> {
        (**self).flows(values, seed)
    }

    proof fn lemma_cell_fits(&self, len: nat) {
        (**self).lemma_cell_fits(len);
    }

    proof fn lemma_flows_fit(&self, values: Seq<N::Scalar>, seed: N::Scalar) {
        (**self).lemma_flows_fit(values, seed);
    }

    proof fn lemma_fits_longer(&self, len: nat, longer: nat) {
        (**self).lemma_fits_longer(len, longer);
    }

    proof fn lemma_flows_prefix(&self, values: Seq<N::Scalar>, longer: Seq<N::Scalar>, seed: N::Scalar) {
        (**self).lemma_flows_prefix(values, longer, seed);
    }

    proof fn lemma_flows_scale(
        &self,
        values: Seq<N::Scalar>,
        factor: N::Scalar,
        seed: N::Scalar,
        cell: int,
    ) where N::Scalar: Exact {
        (**self).lemma_flows_scale(values, factor, seed, cell);
    }

    fn within(&self, tape: &Tape<N::Scalar>) -> (b: bool) {
        (**self).within(tape)
    }

    fn backward(&self, tape: &mut Tape<N::Scalar>, grad: N::Scalar) {
        (**self).backward(tape, grad)
    }

    fn data(&self, tape: &Tape<N::Scalar>) -> (r: N::Scalar) {
        (**self).data(tape)
    }

    fn grad(&self, tape: &Tape<N::Scalar>) -> (r: N::Scalar) {
        (**self).grad(tape)
    }
}

} // verus!
