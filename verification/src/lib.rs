//! A reference-counted shared-ownership handle with a weak observer.
//!
//! Every shared value lives in a control block that carries two counters and
//! a slot. `Arc` handles own the value, `Weak` handles only observe the block.
//! The value is destroyed when the last `Arc` goes, the block is freed when the
//! last handle of either kind goes.
//!
//! * [`refcount`] holds the decisions that a handle takes on a counter value
//!   it has just observed.
//! * [`block`] holds the control block and the single steps that change it.
//! * [`heap`] holds the store in which control blocks live.
//! * [`arc`] holds the two handle types and their operations.
//! * [`protocol`] states the counter protocol as a transition system whose
//!   steps may be interleaved in any order, and proves what holds of every
//!   such order.
//! * [`channel`] holds a first-in first-out message queue.
//! * [`spin_lock`] holds a lock that is taken by swapping a flag.
pub mod refcount;
pub mod block;
pub mod heap;
pub mod arc;
pub mod protocol;
pub mod channel;
pub mod spin_lock;
