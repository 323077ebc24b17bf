//! The mathematical model of a backward pass: a sequence of flows, each
//! carrying an amount of gradient to one cell, settled one after another.

use vstd::prelude::*;
use crate::scalar::{ExactSum, Scalar};

verus! {

/// One amount of gradient on its way to one cell.
pub struct Flow<S> {
    pub cell: int,
    pub amount: S,
}

/// The gradients after one flow has arrived: its amount is added to what
/// its cell held, and every other cell is left alone.
pub open spec fn deposit<S: Scalar>(grads: Seq<S>, flow: Flow<S>) -> Seq<S> {
    if 0 <= flow.cell < grads.len() {
        grads.update(flow.cell, grads[flow.cell].sum_of(flow.amount))
    } else {
        grads
    }
}

/// The gradients after all of `flows` have arrived, first to last.
pub open spec fn settle<S: Scalar>(grads: Seq<S>, flows: Seq<Flow<S>>) -> Seq<S>
    decreases flows.len(),
{
    if flows.len() == 0 {
        grads
    } else {
        deposit(settle(grads, flows.drop_last()), flows.last())
    }
}

/// What a single cell holds after `flows`, having started from `start`:
/// the amounts addressed to it are added on in order, the others pass by.
pub open spec fn received<S: Scalar>(start: S, flows: Seq<Flow<S>>, cell: int) -> S
    decreases flows.len(),
{
    if flows.len() == 0 {
        start
    } else {
        let before = received(start, flows.drop_last(), cell);
        if flows.last().cell == cell {
            before.sum_of(flows.last().amount)
        } else {
            before
        }
    }
}

/// The sum of the amounts that `flows` address to `cell`.
pub open spec fn total<S: Scalar>(flows: Seq<Flow<S>>, cell: int) -> S {
    received(S::zero_value(), flows, cell)
}

/// Whether every flow is addressed to one of the first `len` cells.
pub open spec fn on_tape<S>(flows: Seq<Flow<S>>, len: nat) -> bool {
    forall|k: int| 0 <= k < flows.len() ==> 0 <= (#[trigger] flows[k]).cell < len
}

/// Settling creates and removes no cell.
pub proof fn lemma_settle_len<S: Scalar>(grads: Seq<S>, flows: Seq<Flow<S>>)
    ensures
        settle(grads, flows).len() == grads.len(),
    decreases flows.len(),
{
    if flows.len() > 0 {
        lemma_settle_len(grads, flows.drop_last());
    }
}

/// A single flow settles as one deposit.
pub proof fn lemma_settle_one<S: Scalar>(grads: Seq<S>, flow: Flow<S>)
    ensures
        settle(grads, seq![flow]) == deposit(grads, flow),
{
    let one = seq![flow];
    assert(one.drop_last() =~= Seq::<Flow<S>>::empty());
    assert(settle(grads, one.drop_last()) == grads);
}

/// Settling two runs of flows one after the other is settling their
/// concatenation.
pub proof fn lemma_settle_concat<S: Scalar>(grads: Seq<S>, first: Seq<Flow<S>>, second: Seq<Flow<S>>)
    ensures
        settle(grads, first + second) == settle(settle(grads, first), second),
    decreases second.len(),
{
    if second.len() == 0 {
        assert(first + second =~= first);
    } else {
        assert((first + second).drop_last() =~= first + second.drop_last());
        assert((first + second).last() == second.last());
        lemma_settle_concat(grads, first, second.drop_last());
    }
}

/// Cell by cell, settling is receiving: each cell of the tape ends with
/// what it held plus, in order, the amounts addressed to it.
pub proof fn lemma_settle_cell<S: Scalar>(grads: Seq<S>, flows: Seq<Flow<S>>, cell: int)
    requires
        0 <= cell < grads.len(),
    ensures
        settle(grads, flows)[cell] == received(grads[cell], flows, cell),
    decreases flows.len(),
{
    if flows.len() > 0 {
        lemma_settle_cell(grads, flows.drop_last(), cell);
        lemma_settle_len(grads, flows.drop_last());
    }
}

/// A cell that no flow is addressed to keeps its gradient.
pub proof fn lemma_received_untouched<S: Scalar>(start: S, flows: Seq<Flow<S>>, cell: int)
    requires
        forall|k: int| 0 <= k < flows.len() ==> (#[trigger] flows[k]).cell != cell,
    ensures
        received(start, flows, cell) == start,
    decreases flows.len(),
{
    if flows.len() > 0 {
        lemma_received_untouched(start, flows.drop_last(), cell);
    }
}

/// Receiving two runs of flows one after the other is receiving their
/// concatenation.
pub proof fn lemma_received_concat<S: Scalar>(start: S, first: Seq<Flow<S>>, second: Seq<Flow<S>>, cell: int)
    ensures
        received(start, first + second, cell) == received(received(start, first, cell), second, cell),
    decreases second.len(),
{
    if second.len() == 0 {
        assert(first + second =~= first);
    } else {
        assert((first + second).drop_last() =~= first + second.drop_last());
        assert((first + second).last() == second.last());
        lemma_received_concat(start, first, second.drop_last(), cell);
    }
}

/// Where addition is exact, what a cell receives is what it held plus the
/// total addressed to it.
pub proof fn lemma_received_is_total<S: ExactSum>(start: S, flows: Seq<Flow<S>>, cell: int)
    ensures
        received(start, flows, cell) == start.sum_of(total(flows, cell)),
    decreases flows.len(),
{
    if flows.len() == 0 {
        S::zero_is_neutral(start);
    } else {
        let rest = flows.drop_last();
        lemma_received_is_total(start, rest, cell);
        if flows.last().cell == cell {
            S::sum_associates(start, total(rest, cell), flows.last().amount);
        }
    }
}

/// Where addition is exact, the total of a single flow is its amount for
/// the cell it is addressed to, and zero for every other.
pub proof fn lemma_total_one<S: ExactSum>(flow: Flow<S>, cell: int)
    ensures
        total(seq![flow], cell) == (if flow.cell == cell {
            flow.amount
        } else {
            S::zero_value()
        }),
{
    let one = seq![flow];
    assert(one.drop_last() =~= Seq::<Flow<S>>::empty());
    assert(received(S::zero_value(), one.drop_last(), cell) == S::zero_value());
    S::sum_commutes(S::zero_value(), flow.amount);
    S::zero_is_neutral(flow.amount);
}

/// Where addition is exact, the total of two runs of flows is the sum of
/// their totals.
pub proof fn lemma_total_concat<S: ExactSum>(first: Seq<Flow<S>>, second: Seq<Flow<S>>, cell: int)
    ensures
        total(first + second, cell) == total(first, cell).sum_of(total(second, cell)),
{
    lemma_received_concat(S::zero_value(), first, second, cell);
    lemma_received_is_total(total(first, cell), second, cell);
}

} // verus!
