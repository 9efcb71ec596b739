//! The two operations and the initialization that they share.

use vstd::prelude::*;
use crate::record::{Counter, CounterError, ManageCounter};

verus! {

/// Stores a fresh record in an empty slot: the context's authority, count zero.
pub fn initialize_counter(ctx: &mut ManageCounter) -> (res: Result<(), CounterError>)
    requires
        old(ctx).counter is None,
    ensures
        res is Ok,
        *final(ctx) == old(ctx).after_initialize(),
{
    ctx.counter = Some(Counter { authority: ctx.authority, count: 0 });
    Ok(())
}

/// Adds `step` to the count, after initializing the slot if it is empty.
///
/// A sum that does not fit in a `u64` is rejected with
/// `CounterError::ArithmeticOverflow`, and the record is left as it was.
pub fn increase_counter(ctx: &mut ManageCounter, step: u64) -> (res: Result<(), CounterError>)
    ensures
        res == old(ctx).increase_outcome(step),
        *final(ctx) == old(ctx).after_increase(step),
{
    if ctx.counter.is_none() {
        initialize_counter(ctx)?;
    }
    let mut counter: Counter = ctx.counter.unwrap();
    match counter.count.checked_add(step) {
        Some(count) => {
            counter.count = count;
            ctx.counter = Some(counter);
            Ok(())
        },
        None => Err(CounterError::ArithmeticOverflow),
    }
}

/// Takes `step` from the count, after initializing the slot if it is empty.
///
/// A step larger than the count is rejected with
/// `CounterError::InvalidArgument`, and the count is left as it was. On an
/// empty slot that leaves a fresh record behind in the context: it is for the
/// host not to keep what a rejected operation wrote.
pub fn decrease_counter(ctx: &mut ManageCounter, step: u64) -> (res: Result<(), CounterError>)
    ensures
        res == old(ctx).decrease_outcome(step),
        *final(ctx) == old(ctx).after_decrease(step),
{
    if ctx.counter.is_none() {
        initialize_counter(ctx)?;
    }
    let mut counter: Counter = ctx.counter.unwrap();
    if counter.count >= step {
        counter.count -= step;
        ctx.counter = Some(counter);
        Ok(())
    } else {
        Err(CounterError::InvalidArgument)
    }
}

} // verus!
