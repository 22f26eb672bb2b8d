//! A lock that is taken by swapping a flag.
//!
//! The lock does not spin by itself: `lock` makes one attempt and says
//! whether it took the lock. A caller who finds it taken tries again.
use vstd::prelude::*;

verus! {

/// A value behind a flag that says whether somebody holds it.
pub struct SpinLock<T> {
    locked: bool,
    value: T,
}

/// The right to read and write the value of a lock that has been taken.
pub struct Guard<'a, T> {
    /// The lock that was taken.
    pub lock: &'a mut SpinLock<T>,
}

impl<T> SpinLock<T> {
    /// Whether the lock is taken.
    pub closed spec fn locked(&self) -> bool {
        self.locked
    }

    /// The value behind the lock.
    pub closed spec fn value(&self) -> T {
        self.value
    }

    /// A lock around `value` that nobody holds.
    pub fn new(value: T) -> (lock: Self)
        ensures
            !lock.locked(),
            lock.value() == value,
    {
        Self { locked: false, value }
    }

    /// Sets the flag and takes the lock if the flag was not set before.
    pub fn lock<'a>(&'a mut self) -> (guard: Option<Guard<'a, T>>)
        ensures
            guard is Some <==> !old(self).locked(),
            guard is None ==> final(self).locked() && final(self).value() == old(self).value(),
            guard matches Some(held) ==> held.lock.value() == old(self).value()
                && held.lock.locked() && *final(self) == *final(held.lock),
    {
        let previous = self.locked;
        self.locked = true;
        if previous {
            None
        } else {
            Some(Guard { lock: self })
        }
    }
}

impl<'a, T> Guard<'a, T> {
    /// The value, for reading.
    pub fn deref(&self) -> (value: &T)
        ensures
            *value == old(self.lock).value(),
    {
        &self.lock.value
    }

    /// The value, for writing.
    pub fn deref_mut(&mut self) -> (value: &mut T)
        ensures
            *value == old(self).lock.value(),
            final(self).lock.value() == *final(value),
            final(self).lock.locked() == old(self).lock.locked(),
            *final(final(self).lock) == *final(old(self).lock),
    {
        &mut self.lock.value
    }

    /// Gives the lock back.
    pub fn drop(self)
        ensures
            !final(self.lock).locked(),
            final(self.lock).value() == old(self.lock).value(),
    {
        self.lock.locked = false;
    }
}

} // verus!
