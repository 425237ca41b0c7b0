//! Cooperative synchronization primitives as verified state machines.
//!
//! Every primitive is a plain value owned by one logical thread of control.
//! A suspended task is named by a `u64` waiter id; operations that suspend
//! enqueue the id, and operations that wake record the ids to resume in an
//! outbox that the host scheduler drains with `take_woken`.
pub mod cell;
pub mod completion;
pub mod mpsc;
pub mod notify;
pub mod oneshot;
pub mod rwlock;
