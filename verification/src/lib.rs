//! A per-authority counter: one record for each authority, created on first
//! use, raised and lowered by its owner, never taken below zero.
//!
//! The host that runs the program owns the storage. It hands each operation a
//! [`ManageCounter`]: the authority that signed and the slot that belongs to it,
//! empty or holding a [`Counter`]. The operation works on that context and says
//! whether it was accepted; the host keeps the slot of an accepted operation and
//! throws away that of a rejected one.

pub mod ledger;
pub mod program;
pub mod record;
pub mod transitions;

pub use program::{decrease_counter, increase_counter, initialize_counter};
pub use record::{Counter, CounterError, ManageCounter};
