//! Cells, the tape that owns them, and the variables that name them.

use vstd::prelude::*;
use std::marker::PhantomData;
use crate::backward::Backward;
use crate::flow::Flow;
use crate::product::Product;
use crate::scalar::{Exact, Scalar};
use crate::sum::Sum;

verus! {

/// A cell: the value of one node and the gradient accumulated in it.
pub struct Value<S> {
    pub data: S,
    pub grad: S,
}

impl<S: Scalar> Value<S> {
    /// A cell holding `data`, with no gradient yet.
    pub fn new(data: S) -> (cell: Self)
        ensures
            cell.data == data,
            cell.grad == S::zero_value(),
    {
        Self { data, grad: S::zero() }
    }

    /// Adds `grad` to the gradient of the cell.
    pub fn backward(&mut self, grad: S)
        ensures
            final(self).data == old(self).data,
            final(self).grad == old(self).grad.sum_of(grad),
    {
        self.grad = self.grad.plus(grad);
    }

    /// The value of the cell.
    pub fn data(&self) -> (r: S)
        ensures
            r == self.data,
    {
        self.data
    }

    /// The gradient accumulated in the cell so far.
    pub fn grad(&self) -> (r: S)
        ensures
            r == self.grad,
    {
        self.grad
    }
}

/// The cells of one family of expressions, in the order of their creation.
///
/// A cell is named by its position. Nodes hold positions, not cells, so
/// that two copies of a node name one and the same cell.
pub struct Tape<S> {
    cells: Vec<Value<S>>,
}

impl<S> View for Tape<S> {
    type V = Seq<Value<S>>;

    closed spec fn view(&self) -> Seq<Value<S>> {
        self.cells@
    }
}

impl<S: Scalar> Tape<S> {
    /// The value of each cell.
    pub open spec fn values(&self) -> Seq<S> {
        Seq::new(self@.len(), |i: int| self@[i].data)
    }

    /// The gradient of each cell.
    pub open spec fn grads(&self) -> Seq<S> {
        Seq::new(self@.len(), |i: int| self@[i].grad)
    }

    /// Whether this tape is `before` with one more cell at its end, which
    /// holds `data` and no gradient: what building a node does to a tape.
    pub open spec fn extends(&self, before: &Tape<S>, data: S) -> bool {
        &&& self@.len() == before@.len() + 1
        &&& self.values() == before.values().push(data)
        &&& self.grads() == before.grads().push(S::zero_value())
    }

    /// Whether this tape is `before` after `flows` have arrived: no cell
    /// more or less, every value as it was, the gradients settled.
    pub open spec fn absorbs(&self, before: &Tape<S>, flows: Seq<Flow<S>>) -> bool {
        &&& self@.len() == before@.len()
        &&& self.values() == before.values()
        &&& self.grads() == crate::flow::settle(before.grads(), flows)
    }

    /// A tape with no cell.
    pub fn new() -> (tape: Self)
        ensures
            tape@ == Seq::<Value<S>>::empty(),
    {
        Tape { cells: Vec::new() }
    }

    /// The number of cells.
    pub fn len(&self) -> (n: usize)
        ensures
            n == self@.len(),
    {
        self.cells.len()
    }
}

/// A variable: the leaf of an expression. Copies of a variable name the
/// same cell, so a gradient sent through any of them arrives in one place.
pub struct Var<S> {
    id: usize,
    scalar: PhantomData<S>,
}

impl<S> Clone for Var<S> {
    fn clone(&self) -> (copy: Self)
        ensures
            copy == *self,
    {
        Var { id: self.id, scalar: PhantomData }
    }
}

impl<S> Copy for Var<S> {

}

impl<S: Scalar> Var<S> {
    /// The position on the tape of the cell that the variable names.
    pub closed spec fn index(&self) -> nat {
        self.id as nat
    }

    /// A new variable of value `data`, in a fresh cell at the end of the
    /// tape, with no gradient yet. The cells already there are untouched.
    pub fn new(tape: &mut Tape<S>, data: S) -> (var: Self)
        ensures
            var.index() == old(tape)@.len(),
            final(tape).extends(old(tape), data),
    {
        let id = tape.cells.len();
        tape.cells.push(Value::new(data));
        proof {
            assert(tape.values() =~= old(tape).values().push(data));
            assert(tape.grads() =~= old(tape).grads().push(S::zero_value()));
        }
        Var { id, scalar: PhantomData }
    }

    /// `self + rhs`, built as `Sum::new` builds it.
    pub fn add<T: Backward<Scalar = S>>(self, tape: &mut Tape<S>, rhs: T) -> (sum: Sum<Self, T>)
        requires
            self.fits(old(tape)@.len()),
            rhs.fits(old(tape)@.len()),
        ensures
            sum.own().index() == old(tape)@.len(),
            sum.lhs() == self,
            sum.rhs() == rhs,
            sum.fits(final(tape)@.len()),
            final(tape).extends(
                old(tape),
                old(tape).values()[self.cell()].sum_of(old(tape).values()[rhs.cell()]),
            ),
    {
        Sum::new(tape, self, rhs)
    }

    /// `self * rhs`, built as `Product::new` builds it.
    pub fn mul<T: Backward<Scalar = S>>(self, tape: &mut Tape<S>, rhs: T) -> (product: Product<Self, T>)
        requires
            self.fits(old(tape)@.len()),
            rhs.fits(old(tape)@.len()),
        ensures
            product.own().index() == old(tape)@.len(),
            product.lhs() == self,
            product.rhs() == rhs,
            product.fits(final(tape)@.len()),
            final(tape).extends(
                old(tape),
                old(tape).values()[self.cell()].product_of(old(tape).values()[rhs.cell()]),
            ),
    {
        Product::new(tape, self, rhs)
    }
}

impl<S: Scalar> Backward for Var<S> {
    type Scalar = S;

    open spec fn fits(&self, len: nat) -> bool {
        self.index() < len
    }

    open spec fn cell(&self) -> int {
        self.index() as int
    }

    /// The seed goes to the variable's cell, and no further.
    open spec fn flows(&self, values: Seq<S>, seed: S) -> Seq<Flow<S>> {
        seq![Flow { cell: self.index() as int, amount: seed }]
    }

    proof fn lemma_cell_fits(&self, len: nat) {
    }

    proof fn lemma_flows_fit(&self, values: Seq<S>, seed: S) {
    }

    proof fn lemma_fits_longer(&self, len: nat, longer: nat) {
    }

    proof fn lemma_flows_prefix(&self, values: Seq<S>, longer: Seq<S>, seed: S) {
    }

    proof fn lemma_flows_scale(&self, values: Seq<S>, factor: S, seed: S, cell: int) where
        S: Exact,
    {
        let scaled = Flow { cell: self.index() as int, amount: factor.product_of(seed) };
        let plain = Flow { cell: self.index() as int, amount: seed };
        crate::flow::lemma_total_one(scaled, cell);
        crate::flow::lemma_total_one(plain, cell);
        S::zero_annihilates(factor);
    }

    fn within(&self, tape: &Tape<S>) -> (b: bool) {
        self.id < tape.cells.len()
    }

    fn backward(&self, tape: &mut Tape<S>, grad: S) {
        tape.cells[self.id].backward(grad);
        proof {
            let flow = Flow { cell: self.index() as int, amount: grad };
            crate::flow::lemma_settle_one(old(tape).grads(), flow);
            assert(tape.values() =~= old(tape).values());
            assert(tape.grads() =~= crate::flow::deposit(old(tape).grads(), flow));
        }
    }

    fn data(&self, tape: &Tape<S>) -> (r: S) {
        tape.cells[self.id].data()
    }

    fn grad(&self, tape: &Tape<S>) -> (r: S) {
        tape.cells[self.id].grad()
    }
}

} // verus!
