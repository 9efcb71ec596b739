//! The records of all authorities, as a host keeps them, and what the
//! operations do to them.
//!
//! A host holds at most one record for each authority. For a call it loads the
//! caller's slot into a context, runs the operation on it, and stores the slot
//! back if the operation was accepted; a rejected operation leaves no trace.
//! This module states that protocol and proves that under it a rejected
//! operation changes nothing and that no authority's calls reach another's
//! record.

use vstd::prelude::*;
use anchor_lang::prelude::Pubkey;
use crate::record::{Counter, CounterError, ManageCounter};

verus! {

/// The records that a host holds, each under the authority that owns it.
pub type Ledger = Map<Pubkey, Counter>;

/// One of the two operations, with its step.
pub enum Operation {
    Increase(u64),
    Decrease(u64),
}

/// An operation called by an authority.
pub struct Call {
    pub authority: Pubkey,
    pub operation: Operation,
}

/// Every record is held under the authority that it names.
pub open spec fn wf(ledger: Ledger) -> bool {
    forall|a: Pubkey| ledger.dom().contains(a) ==> (#[trigger] ledger[a]).authority == a
}

/// The context that the host hands to a call by `authority`.
pub open spec fn load(ledger: Ledger, authority: Pubkey) -> ManageCounter {
    ManageCounter {
        counter: if ledger.dom().contains(authority) {
            Some(ledger[authority])
        } else {
            None
        },
        authority,
    }
}

/// The ledger once a call has ended with `outcome` and left `ctx`: the slot is
/// stored if the call was accepted, and dropped if it was rejected.
pub open spec fn store(
    ledger: Ledger,
    ctx: ManageCounter,
    outcome: Result<(), CounterError>,
) -> Ledger {
    match (outcome, ctx.counter) {
        (Ok(_), Some(record)) => ledger.insert(ctx.authority, record),
        _ => ledger,
    }
}

/// What `operation` returns on `ctx`.
pub open spec fn outcome(ctx: ManageCounter, operation: Operation) -> Result<(), CounterError> {
    match operation {
        Operation::Increase(step) => ctx.increase_outcome(step),
        Operation::Decrease(step) => ctx.decrease_outcome(step),
    }
}

/// The context that `operation` leaves.
pub open spec fn after(ctx: ManageCounter, operation: Operation) -> ManageCounter {
    match operation {
        Operation::Increase(step) => ctx.after_increase(step),
        Operation::Decrease(step) => ctx.after_decrease(step),
    }
}

/// The ledger after one call.
pub open spec fn apply(ledger: Ledger, call: Call) -> Ledger {
    let ctx = load(ledger, call.authority);
    store(ledger, after(ctx, call.operation), outcome(ctx, call.operation))
}

/// The ledger after a run of calls, in their order.
pub open spec fn run(ledger: Ledger, calls: Seq<Call>) -> Ledger
    decreases calls.len(),
{
    if calls.len() == 0 {
        ledger
    } else {
        apply(run(ledger, calls.drop_last()), calls.last())
    }
}

/// The calls of a run that `authority` made, in their order.
pub open spec fn calls_of(calls: Seq<Call>, authority: Pubkey) -> Seq<Call>
    decreases calls.len(),
{
    if calls.len() == 0 {
        calls
    } else if calls.last().authority == authority {
        calls_of(calls.drop_last(), authority).push(calls.last())
    } else {
        calls_of(calls.drop_last(), authority)
    }
}

/// A call is all or nothing. Where it is rejected the ledger is as it was:
/// no count has changed, and the caller has a record only if it had one
/// before. Where it is accepted the caller's slot holds what the operation
/// left.
pub proof fn call_is_atomic(ledger: Ledger, call: Call)
    ensures
        outcome(load(ledger, call.authority), call.operation) is Err ==> apply(ledger, call)
            == ledger,
        outcome(load(ledger, call.authority), call.operation) is Ok ==> load(
            apply(ledger, call),
            call.authority,
        ) == after(load(ledger, call.authority), call.operation),
{
}

/// A call by one authority leaves the record of every other authority as it
/// was: there if it was there, with the same owner and count.
pub proof fn call_leaves_others(ledger: Ledger, call: Call, other: Pubkey)
    requires
        other != call.authority,
    ensures
        apply(ledger, call).dom().contains(other) == ledger.dom().contains(other),
        apply(ledger, call)[other] == ledger[other],
        load(apply(ledger, call), other) == load(ledger, other),
{
}

/// A call keeps each record under the authority that it names.
pub proof fn call_keeps_wf(ledger: Ledger, call: Call)
    requires
        wf(ledger),
    ensures
        wf(apply(ledger, call)),
{
}

/// What a call does to its caller's slot depends on that slot alone.
pub proof fn call_reads_own_slot(first: Ledger, second: Ledger, call: Call)
    requires
        load(first, call.authority) == load(second, call.authority),
    ensures
        load(apply(first, call), call.authority) == load(apply(second, call), call.authority),
{
}

/// However the calls of several authorities are interleaved, each authority
/// ends with the record that its own calls alone would have left it.
pub proof fn interleaving_leaves_others(ledger: Ledger, calls: Seq<Call>, authority: Pubkey)
    ensures
        load(run(ledger, calls), authority) == load(
            run(ledger, calls_of(calls, authority)),
            authority,
        ),
    decreases calls.len(),
{
    if calls.len() > 0 {
        let front = calls.drop_last();
        let last = calls.last();
        interleaving_leaves_others(ledger, front, authority);
        if last.authority == authority {
            let own = calls_of(front, authority);
            assert(own.push(last).drop_last() == own);
            call_reads_own_slot(run(ledger, front), run(ledger, own), last);
        } else {
            call_leaves_others(run(ledger, front), last, authority);
        }
    }
}

/// A run of calls keeps each record under the authority that it names.
pub proof fn run_keeps_wf(ledger: Ledger, calls: Seq<Call>)
    requires
        wf(ledger),
    ensures
        wf(run(ledger, calls)),
    decreases calls.len(),
{
    if calls.len() > 0 {
        run_keeps_wf(ledger, calls.drop_last());
        call_keeps_wf(run(ledger, calls.drop_last()), calls.last());
    }
}

} // verus!
