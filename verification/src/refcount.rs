//! Decisions on observed counter values.
//!
//! A handle never reads a counter and acts on it in one step: it performs one
//! atomic operation, is told the value the counter had, and decides from that
//! value alone what to do next. The functions here are those decisions.
use vstd::prelude::*;

verus! {

/// The largest value that an increment may find in a counter. An increment that
/// finds more must stop the process: a counter that wrapped round to a small
/// value would let the value be destroyed under live handles.
pub const MAX_REFCOUNT: usize = usize::MAX / 2;

/// What `Weak::upgrade` does next, given the strong count it last observed.
#[derive(Clone, Copy, Debug, PartialEq, Eq)]
pub enum Attempt {
    /// The value is gone for good: there is nothing to upgrade to.
    Absent,
    /// Try to replace `current` by `new` in the strong counter, in one atomic
    /// compare-and-exchange.
    Exchange { current: usize, new: usize },
}

/// Whether an increment that found `previous` in the counter has to stop the
/// process.
pub fn exceeds_limit(previous: usize) -> (abort: bool)
    ensures
        abort == (previous > MAX_REFCOUNT),
{
    previous > MAX_REFCOUNT
}

/// Whether a decrement that found `previous` in the counter brought it to
/// zero. The caller is then the only one who may release what the counter
/// guards.
pub fn is_last(previous: usize) -> (last: bool)
    ensures
        last == (previous == 1),
{
    previous == 1
}

/// Whether a handle that observes `total` handles of either kind is the only
/// one, and may hand out exclusive access to the value.
pub fn is_exclusive(total: usize) -> (exclusive: bool)
    ensures
        exclusive == (total == 1),
{
    total == 1
}

/// The next move of an upgrade that observed a strong count of `n`.
///
/// Zero is final, since a strong count that reached zero never rises again.
/// Any other count is to be replaced by its successor.
pub fn upgrade_attempt(n: usize) -> (attempt: Attempt)
    requires
        n < usize::MAX,
    ensures
        n == 0 ==> attempt == Attempt::Absent,
        n != 0 ==> attempt == (Attempt::Exchange { current: n, new: (n + 1) as usize }),
{
    if n == 0 {
        Attempt::Absent
    } else {
        Attempt::Exchange { current: n, new: n + 1 }
    }
}

/// What an upgrade does with the outcome of its compare-and-exchange: `None`
/// when the exchange took place and the strong count is now held, or the
/// count to try again with when another handle changed the counter first.
pub fn upgrade_retry(outcome: Result<usize, usize>) -> (again: Option<usize>)
    ensures
        again == match outcome {
            Ok(_) => None,
            Err(seen) => Some(seen),
        },
{
    match outcome {
        Ok(_) => None,
        Err(seen) => Some(seen),
    }
}

} // verus!
