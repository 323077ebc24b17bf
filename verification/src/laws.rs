//! What holds of every expression, on every tape.

use vstd::prelude::*;
use crate::backward::Backward;
use crate::flow::Flow;
use crate::product::Product;
use crate::scalar::{Exact, ExactSum, Scalar};
use crate::sum::Sum;
use crate::var::{Tape, Var};

verus! {

/// A new variable holds the value it was given and no gradient; a backward
/// pass from it with `seed` leaves its value as it is and `zero + seed` as
/// its gradient.
pub proof fn lemma_leaf_base_case<S: Scalar>(
    before: Tape<S>,
    built: Tape<S>,
    after: Tape<S>,
    var: Var<S>,
    x: S,
    seed: S,
)
    requires
        var.index() == before@.len(),
        built.extends(&before, x),
        after.absorbs(&built, var.flows(built.values(), seed)),
    ensures
        built.values()[var.cell()] == x,
        built.grads()[var.cell()] == S::zero_value(),
        after.values()[var.cell()] == x,
        after.grads()[var.cell()] == S::zero_value().sum_of(seed),
{
    let flows = var.flows(built.values(), seed);
    crate::flow::lemma_settle_one(built.grads(), flows[0]);
    assert(flows =~= seq![flows[0]]);
}

/// Where addition is exact, the gradient of a new variable after one
/// backward pass from it is the seed.
pub proof fn lemma_leaf_receives_seed<S: ExactSum>(
    before: Tape<S>,
    built: Tape<S>,
    after: Tape<S>,
    var: Var<S>,
    x: S,
    seed: S,
)
    requires
        var.index() == before@.len(),
        built.extends(&before, x),
        after.absorbs(&built, var.flows(built.values(), seed)),
    ensures
        after.grads()[var.cell()] == seed,
{
    lemma_leaf_base_case(before, built, after, var, x, seed);
    S::sum_commutes(S::zero_value(), seed);
    S::zero_is_neutral(seed);
}

/// The sum of two new variables of values `a` and `b` has the value
/// `a + b`.
pub proof fn lemma_sum_forward<S: Scalar>(
    before: Tape<S>,
    with_left: Tape<S>,
    with_right: Tape<S>,
    built: Tape<S>,
    a: S,
    b: S,
    left: Var<S>,
    right: Var<S>,
    sum: Sum<Var<S>, Var<S>>,
)
    requires
        left.index() == before@.len(),
        with_left.extends(&before, a),
        right.index() == with_left@.len(),
        with_right.extends(&with_left, b),
        sum.own().index() == with_right@.len(),
        built.extends(
            &with_right,
            with_right.values()[left.cell()].sum_of(with_right.values()[right.cell()]),
        ),
    ensures
        built.values()[sum.cell()] == a.sum_of(b),
{
}

/// The product of two new variables of values `a` and `b` has the value
/// `a * b`.
pub proof fn lemma_product_forward<S: Scalar>(
    before: Tape<S>,
    with_left: Tape<S>,
    with_right: Tape<S>,
    built: Tape<S>,
    a: S,
    b: S,
    left: Var<S>,
    right: Var<S>,
    product: Product<Var<S>, Var<S>>,
)
    requires
        left.index() == before@.len(),
        with_left.extends(&before, a),
        right.index() == with_left@.len(),
        with_right.extends(&with_left, b),
        product.own().index() == with_right@.len(),
        built.extends(
            &with_right,
            with_right.values()[left.cell()].product_of(with_right.values()[right.cell()]),
        ),
    ensures
        built.values()[product.cell()] == a.product_of(b),
{
}

/// A backward pass changes the gradient of no cell that the node does not
/// name: whatever lies outside the node's flows keeps what it held.
pub proof fn lemma_backward_frame<N: Backward>(
    node: N,
    before: Tape<N::Scalar>,
    after: Tape<N::Scalar>,
    seed: N::Scalar,
    cell: int,
)
    requires
        after.absorbs(&before, node.flows(before.values(), seed)),
        0 <= cell < before@.len(),
        forall|k: int|
            0 <= k < node.flows(before.values(), seed).len() ==> (#[trigger] node.flows(
                before.values(),
                seed,
            )[k]).cell != cell,
    ensures
        after.grads()[cell] == before.grads()[cell],
{
    let flows = node.flows(before.values(), seed);
    crate::flow::lemma_settle_cell(before.grads(), flows, cell);
    crate::flow::lemma_received_untouched(before.grads()[cell], flows, cell);
}

/// Gradients are never reset: a second backward pass from the same node
/// with the same seed sends the same flows again, and they arrive on top
/// of what the first pass left.
pub proof fn lemma_backward_twice<N: Backward>(
    node: N,
    before: Tape<N::Scalar>,
    once: Tape<N::Scalar>,
    twice: Tape<N::Scalar>,
    seed: N::Scalar,
)
    requires
        once.absorbs(&before, node.flows(before.values(), seed)),
        twice.absorbs(&once, node.flows(once.values(), seed)),
    ensures
        node.flows(once.values(), seed) == node.flows(before.values(), seed),
        twice.absorbs(
            &before,
            node.flows(before.values(), seed) + node.flows(before.values(), seed),
        ),
        forall|cell: int|
            0 <= cell < before@.len() ==> #[trigger] twice.grads()[cell] == crate::flow::received(
                once.grads()[cell],
                node.flows(before.values(), seed),
                cell,
            ),
{
    let flows = node.flows(before.values(), seed);
    crate::flow::lemma_settle_concat(before.grads(), flows, flows);
    assert forall|cell: int| 0 <= cell < before@.len() implies #[trigger] twice.grads()[cell]
        == crate::flow::received(once.grads()[cell], flows, cell) by {
        crate::flow::lemma_settle_cell(once.grads(), flows, cell);
    }
}

/// Where addition is exact, two backward passes with the same seed leave
/// in every cell that started without gradient twice what one pass leaves.
pub proof fn lemma_backward_twice_doubles<N: Backward>(
    node: N,
    before: Tape<N::Scalar>,
    once: Tape<N::Scalar>,
    twice: Tape<N::Scalar>,
    seed: N::Scalar,
    cell: int,
) where N::Scalar: ExactSum
    requires
        once.absorbs(&before, node.flows(before.values(), seed)),
        twice.absorbs(&once, node.flows(once.values(), seed)),
        0 <= cell < before@.len(),
        before.grads()[cell] == N::Scalar::zero_value(),
    ensures
        twice.grads()[cell] == once.grads()[cell].sum_of(once.grads()[cell]),
{
    let flows = node.flows(before.values(), seed);
    crate::flow::lemma_settle_cell(before.grads(), flows, cell);
    crate::flow::lemma_settle_cell(once.grads(), flows, cell);
    crate::flow::lemma_received_is_total(once.grads()[cell], flows, cell);
}

/// Where addition is exact, a backward pass adds to each cell the total of
/// the flows addressed to it, whatever their order.
pub proof fn lemma_backward_adds_total<N: Backward>(
    node: N,
    before: Tape<N::Scalar>,
    after: Tape<N::Scalar>,
    seed: N::Scalar,
    cell: int,
) where N::Scalar: ExactSum
    requires
        after.absorbs(&before, node.flows(before.values(), seed)),
        0 <= cell < before@.len(),
    ensures
        after.grads()[cell] == before.grads()[cell].sum_of(
            crate::flow::total(node.flows(before.values(), seed), cell),
        ),
{
    let flows = node.flows(before.values(), seed);
    crate::flow::lemma_settle_cell(before.grads(), flows, cell);
    crate::flow::lemma_received_is_total(before.grads()[cell], flows, cell);
}

/// The rule for a variable: a pass from it brings the seed to its own cell
/// and nothing to any other.
pub proof fn lemma_variable_rule<S: ExactSum>(var: Var<S>, values: Seq<S>, seed: S, cell: int)
    ensures
        crate::flow::total(var.flows(values, seed), cell) == (if cell == var.index() {
            seed
        } else {
            S::zero_value()
        }),
{
    crate::flow::lemma_total_one(Flow { cell: var.index() as int, amount: seed }, cell);
}

/// The rule for a sum: a pass from `left + right` brings a cell what the
/// sum's own cell is due, plus what a pass from `left` brings it, plus what
/// a pass from `right` brings it, all with the same seed.
pub proof fn lemma_sum_rule<L: Backward, R: Backward<Scalar = L::Scalar>>(
    sum: Sum<L, R>,
    values: Seq<L::Scalar>,
    seed: L::Scalar,
    cell: int,
) where L::Scalar: ExactSum
    ensures
        crate::flow::total(sum.flows(values, seed), cell) == crate::flow::total(
            sum.own().flows(values, seed),
            cell,
        ).sum_of(crate::flow::total(sum.lhs().flows(values, seed), cell)).sum_of(
            crate::flow::total(sum.rhs().flows(values, seed), cell),
        ),
{
    let to_own = sum.own().flows(values, seed);
    let to_left = sum.lhs().flows(values, seed);
    let to_right = sum.rhs().flows(values, seed);
    crate::flow::lemma_total_concat(to_own, to_left, cell);
    crate::flow::lemma_total_concat(to_own + to_left, to_right, cell);
}

/// The rule for a product: a pass from `left * right` brings a cell what
/// the product's own cell is due, plus the value of `right` times what a
/// pass from `left` brings it, plus the value of `left` times what a pass
/// from `right` brings it, all with the same seed.
pub proof fn lemma_product_rule<L: Backward, R: Backward<Scalar = L::Scalar>>(
    product: Product<L, R>,
    values: Seq<L::Scalar>,
    seed: L::Scalar,
    cell: int,
) where L::Scalar: Exact
    ensures
        crate::flow::total(product.flows(values, seed), cell) == crate::flow::total(
            product.own().flows(values, seed),
            cell,
        ).sum_of(
            values[product.rhs().cell()].product_of(
                crate::flow::total(product.lhs().flows(values, seed), cell),
            ),
        ).sum_of(
            values[product.lhs().cell()].product_of(
                crate::flow::total(product.rhs().flows(values, seed), cell),
            ),
        ),
{
    let left_value = values[product.lhs().cell()];
    let right_value = values[product.rhs().cell()];
    let to_own = product.own().flows(values, seed);
    let to_left = product.lhs().flows(values, right_value.product_of(seed));
    let to_right = product.rhs().flows(values, left_value.product_of(seed));
    crate::flow::lemma_total_concat(to_own, to_left, cell);
    crate::flow::lemma_total_concat(to_own + to_left, to_right, cell);
    product.lhs().lemma_flows_scale(values, right_value, seed, cell);
    product.rhs().lemma_flows_scale(values, left_value, seed, cell);
}

} // verus!
