use anchor_lang::prelude::Pubkey;
use counter::{decrease_counter, increase_counter, Counter, CounterError, ManageCounter};

const ALICE: Pubkey = Pubkey::new_from_array([7; 32]);

fn new_context(authority: Pubkey) -> ManageCounter {
    ManageCounter { counter: None, authority }
}

#[test]
fn increase_then_decrease_then_overdraw_then_zero_step() {
    let mut ctx = new_context(ALICE);

    assert_eq!(increase_counter(&mut ctx, 5), Ok(()));
    assert_eq!(ctx.counter, Some(Counter { authority: ALICE, count: 5 }));

    assert_eq!(decrease_counter(&mut ctx, 3), Ok(()));
    assert_eq!(ctx.counter, Some(Counter { authority: ALICE, count: 2 }));

    assert_eq!(decrease_counter(&mut ctx, 5), Err(CounterError::InvalidArgument));
    assert_eq!(ctx.counter, Some(Counter { authority: ALICE, count: 2 }));

    assert_eq!(increase_counter(&mut ctx, 0), Ok(()));
    assert_eq!(ctx.counter, Some(Counter { authority: ALICE, count: 2 }));
    assert_eq!(ctx.authority, ALICE);
}

#[test]
fn decrease_on_new_authority_is_rejected_and_leaves_zero() {
    let mut ctx = new_context(ALICE);

    assert_eq!(decrease_counter(&mut ctx, 1), Err(CounterError::InvalidArgument));
    assert_eq!(ctx.counter, Some(Counter { authority: ALICE, count: 0 }));
    assert_eq!(ctx.authority, ALICE);
}

#[test]
fn rejected_first_decrease_is_followed_by_ordinary_operations() {
    let mut ctx = new_context(ALICE);

    assert_eq!(decrease_counter(&mut ctx, 1), Err(CounterError::InvalidArgument));
    assert_eq!(increase_counter(&mut ctx, 4), Ok(()));
    assert_eq!(decrease_counter(&mut ctx, 1), Ok(()));
    assert_eq!(ctx.counter, Some(Counter { authority: ALICE, count: 3 }));
}

#[test]
fn host_that_drops_rejected_calls_keeps_no_record_of_them() {
    let mut stored: Option<Counter> = None;

    let mut ctx = ManageCounter { counter: stored, authority: ALICE };
    if decrease_counter(&mut ctx, 1).is_ok() {
        stored = ctx.counter;
    }
    assert_eq!(stored, None);

    let mut ctx = ManageCounter { counter: stored, authority: ALICE };
    if increase_counter(&mut ctx, 9).is_ok() {
        stored = ctx.counter;
    }
    assert_eq!(stored, Some(Counter { authority: ALICE, count: 9 }));

    let mut ctx = ManageCounter { counter: stored, authority: ALICE };
    if decrease_counter(&mut ctx, 10).is_ok() {
        stored = ctx.counter;
    }
    assert_eq!(stored, Some(Counter { authority: ALICE, count: 9 }));
}
