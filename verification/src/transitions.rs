//! What holds of the operations on one context: of a single step, and of a
//! run of increases.

use vstd::prelude::*;
use crate::record::{Counter, CounterError, ManageCounter};

verus! {

/// The sum of `steps`.
pub open spec fn total(steps: Seq<u64>) -> nat
    decreases steps.len(),
{
    if steps.len() == 0 {
        0
    } else {
        total(steps.drop_last()) + steps.last() as nat
    }
}

/// The context after an increase by each of `steps` in turn.
pub open spec fn after_increases(ctx: ManageCounter, steps: Seq<u64>) -> ManageCounter
    decreases steps.len(),
{
    if steps.len() == 0 {
        ctx
    } else {
        after_increases(ctx, steps.drop_last()).after_increase(steps.last())
    }
}

/// Every increase of the run is accepted when its turn comes.
pub open spec fn increases_accepted(ctx: ManageCounter, steps: Seq<u64>) -> bool {
    forall|i: int|
        0 <= i < steps.len() ==> #[trigger] after_increases(ctx, steps.take(i)).increase_accepted(
            steps[i],
        )
}

/// The first operation on an empty slot works on a fresh record: what it
/// returns and leaves behind is what it would on a slot that was initialized
/// just before, with the context's authority and count zero. So an increase
/// leaves the step as the count, and a decrease is accepted for step zero alone.
pub proof fn first_operation_starts_from_zero(ctx: ManageCounter, step: u64)
    requires
        ctx.counter is None,
    ensures
        ctx.after_initialize().counter == Some(Counter { authority: ctx.authority, count: 0 }),
        ctx.after_initialize().authority == ctx.authority,
        ctx.increase_outcome(step) == ctx.after_initialize().increase_outcome(step),
        ctx.after_increase(step) == ctx.after_initialize().after_increase(step),
        ctx.decrease_outcome(step) == ctx.after_initialize().decrease_outcome(step),
        ctx.after_decrease(step) == ctx.after_initialize().after_decrease(step),
        ctx.increase_outcome(step) is Ok,
        ctx.after_increase(step).counter == Some(Counter { authority: ctx.authority, count: step }),
        ctx.decrease_outcome(step) is Ok <==> step == 0,
        ctx.after_decrease(step).counter == Some(Counter { authority: ctx.authority, count: 0 }),
{
}

/// An accepted increase adds exactly the step, and one that is not accepted
/// changes nothing: not the slot, not the record in it.
pub proof fn increase_adds_step_or_nothing(ctx: ManageCounter, step: u64)
    ensures
        ctx.increase_outcome(step) is Ok ==> ctx.after_increase(step).record().count
            == ctx.record().count + step,
        ctx.increase_outcome(step) is Err ==> ctx.after_increase(step) == ctx,
        ctx.increase_outcome(step) is Err <==> ctx.record().count + step > u64::MAX,
{
}

/// A decrease by more than the count is rejected as an invalid argument and
/// leaves the count as it was.
pub proof fn decrease_beyond_count_is_rejected(ctx: ManageCounter, step: u64)
    requires
        step > ctx.record().count,
    ensures
        ctx.decrease_outcome(step) == Err::<(), CounterError>(CounterError::InvalidArgument),
        ctx.after_decrease(step).record() == ctx.record(),
        ctx.counter is Some ==> ctx.after_decrease(step) == ctx,
{
}

/// A decrease within the count is accepted and takes exactly the step, so the
/// count never goes below zero; a decrease by the whole count leaves zero.
pub proof fn decrease_within_count_is_accepted(ctx: ManageCounter, step: u64)
    requires
        step <= ctx.record().count,
    ensures
        ctx.decrease_outcome(step) is Ok,
        ctx.after_decrease(step).record().count == ctx.record().count - step,
        step == ctx.record().count ==> ctx.after_decrease(step).record().count == 0,
{
}

/// No operation changes who owns a record, nor on whose behalf the context
/// runs; a slot that was empty or held its authority's record holds its
/// authority's record afterwards.
pub proof fn authority_is_kept(ctx: ManageCounter, step: u64)
    ensures
        ctx.after_increase(step).counter is Some,
        ctx.after_decrease(step).counter is Some,
        ctx.after_increase(step).authority == ctx.authority,
        ctx.after_decrease(step).authority == ctx.authority,
        ctx.after_increase(step).record().authority == ctx.record().authority,
        ctx.after_decrease(step).record().authority == ctx.record().authority,
        ctx.wf() ==> ctx.after_initialize().wf() && ctx.after_increase(step).wf()
            && ctx.after_decrease(step).wf(),
{
}

/// A run of increases whose steps, added to the count at the start, fit in a
/// `u64` is accepted step by step and leaves the count at the start plus the
/// sum of the steps: on a slot that was empty, the sum of the steps.
pub proof fn increases_add_up(ctx: ManageCounter, steps: Seq<u64>)
    requires
        ctx.record().count + total(steps) <= u64::MAX,
    ensures
        increases_accepted(ctx, steps),
        after_increases(ctx, steps).record().count == ctx.record().count + total(steps),
        after_increases(ctx, steps).record().authority == ctx.record().authority,
        after_increases(ctx, steps).authority == ctx.authority,
        ctx.counter is None ==> after_increases(ctx, steps).record().count == total(steps),
    decreases steps.len(),
{
    if steps.len() > 0 {
        let front = steps.drop_last();
        increases_add_up(ctx, front);
        assert forall|i: int| 0 <= i < steps.len() implies #[trigger] after_increases(
            ctx,
            steps.take(i),
        ).increase_accepted(steps[i]) by {
            if i < front.len() {
                assert(steps.take(i) == front.take(i));
                assert(steps[i] == front[i]);
            } else {
                assert(steps.take(i) == front);
            }
        }
    }
}

} // verus!
