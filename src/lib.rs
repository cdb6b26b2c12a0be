//! Synchronization building blocks for a single execution context: a boolean
//! cell with atomic-style operations, a flag, a one-slot waker registry, a
//! reference-counted shared cell and a two-party asynchronous lock.
use vstd::prelude::*;

pub mod atomic;
pub mod bilock;
pub mod flag;
pub mod shared;
pub mod waker_slot;

verus! {

} // verus!
