//! The counter record, the context of one operation, and what each operation
//! makes of a context.

use vstd::prelude::*;
use anchor_lang::prelude::Pubkey;

verus! {

/// `anchor_lang::prelude::Pubkey`, the identity of an authority. The library
/// stores it and hands it on, and never looks inside: nothing is claimed of it.
#[verifier::external_type_specification]
#[verifier::external_body]
pub struct ExPubkey(anchor_lang::prelude::Pubkey);

/// One authority's counter.
#[derive(Clone, Copy, Debug, PartialEq, Eq)]
pub struct Counter {
    /// The identity that created the record and alone may change it.
    pub authority: Pubkey,
    /// The current value.
    pub count: u64,
}

/// Why an operation was rejected.
#[derive(Clone, Copy, Debug, PartialEq, Eq)]
pub enum CounterError {
    /// The step of a decrease is larger than the count.
    InvalidArgument,
    /// The step of an increase would take the count past `u64::MAX`.
    ArithmeticOverflow,
}

/// What one operation is given: the authority that signed for it and the
/// storage slot derived from that authority.
#[derive(Clone, Copy, Debug, PartialEq, Eq)]
pub struct ManageCounter {
    /// The slot: `None` while nothing has been stored in it.
    pub counter: Option<Counter>,
    /// The identity on whose behalf the operation runs.
    pub authority: Pubkey,
}

impl ManageCounter {
    /// The slot is empty or holds a record of this context's authority.
    pub open spec fn wf(self) -> bool {
        self.counter matches Some(c) ==> c.authority == self.authority
    }

    /// The record that a fresh slot receives: this authority's, at zero.
    pub open spec fn fresh(self) -> Counter {
        Counter { authority: self.authority, count: 0 }
    }

    /// The record that an operation works on: the one in the slot, or a fresh
    /// one where the slot is empty.
    pub open spec fn record(self) -> Counter {
        match self.counter {
            Some(c) => c,
            None => self.fresh(),
        }
    }

    /// The context with `record` in its slot.
    pub open spec fn with_record(self, record: Counter) -> ManageCounter {
        ManageCounter { counter: Some(record), authority: self.authority }
    }

    /// The context once its slot has been initialized.
    pub open spec fn after_initialize(self) -> ManageCounter {
        self.with_record(self.fresh())
    }

    /// An increase by `step` is accepted: the sum fits in a `u64`.
    pub open spec fn increase_accepted(self, step: u64) -> bool {
        self.record().count + step <= u64::MAX
    }

    /// What an increase by `step` returns.
    pub open spec fn increase_outcome(self, step: u64) -> Result<(), CounterError> {
        if self.increase_accepted(step) {
            Ok(())
        } else {
            Err(CounterError::ArithmeticOverflow)
        }
    }

    /// The context after an increase by `step`: the record holds the sum where
    /// the increase is accepted, and nothing has changed where it is not.
    pub open spec fn after_increase(self, step: u64) -> ManageCounter {
        let r = self.record();
        if self.increase_accepted(step) {
            self.with_record(Counter { authority: r.authority, count: (r.count + step) as u64 })
        } else {
            self
        }
    }

    /// A decrease by `step` is accepted: the count is at least `step`.
    pub open spec fn decrease_accepted(self, step: u64) -> bool {
        self.record().count >= step
    }

    /// What a decrease by `step` returns.
    pub open spec fn decrease_outcome(self, step: u64) -> Result<(), CounterError> {
        if self.decrease_accepted(step) {
            Ok(())
        } else {
            Err(CounterError::InvalidArgument)
        }
    }

    /// The context after a decrease by `step`: the record holds the difference
    /// where the decrease is accepted, and is left as it was where it is not
    /// (on a slot that was empty, as a fresh record).
    pub open spec fn after_decrease(self, step: u64) -> ManageCounter {
        let r = self.record();
        if self.decrease_accepted(step) {
            self.with_record(Counter { authority: r.authority, count: (r.count - step) as u64 })
        } else {
            self.with_record(r)
        }
    }
}

} // verus!
