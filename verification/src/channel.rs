//! A first-in first-out channel of messages.
//!
//! The channel is the queue and its discipline. It does not wait: where no
//! message is ready, `receive` says so, and it is for the caller to wait for
//! a sender and ask again.
use std::collections::VecDeque;
use vstd::prelude::*;

verus! {

/// A queue of messages, oldest first.
pub struct Channel<T> {
    queue: VecDeque<T>,
}

impl<T> View for Channel<T> {
    type V = Seq<T>;

    /// The messages that were sent and not yet received, oldest first.
    closed spec fn view(&self) -> Seq<T> {
        self.queue@
    }
}

impl<T> Channel<T> {
    /// A channel with no message in it.
    pub fn new() -> (channel: Self)
        ensures
            channel@ == Seq::<T>::empty(),
    {
        Self { queue: VecDeque::new() }
    }

    /// Puts `message` behind all messages that wait.
    pub fn send(&mut self, message: T)
        ensures
            final(self)@ == old(self)@.push(message),
    {
        self.queue.push_back(message);
    }

    /// Takes the oldest message out of the channel, or returns `None` and
    /// leaves the channel as it is if no message waits.
    pub fn receive(&mut self) -> (message: Option<T>)
        ensures
            old(self)@.len() == 0 ==> message is None && final(self)@ == old(self)@,
            old(self)@.len() > 0 ==> message == Some(old(self)@.first()) && final(self)@ == old(
                self,
            )@.drop_first(),
    {
        self.queue.pop_front()
    }

    /// What is sent comes out again, in the order in which it was sent:
    /// a channel that has received whatever waited and then a run of
    /// messages hands out the first of that run next.
    pub proof fn law_first_in_first_out(waiting: Seq<T>, sent: Seq<T>)
        requires
            sent.len() > 0,
        ensures
            (waiting + sent).first() == if waiting.len() > 0 {
                waiting.first()
            } else {
                sent.first()
            },
            (waiting + sent).drop_first() == if waiting.len() > 0 {
                waiting.drop_first() + sent
            } else {
                sent.drop_first()
            },
    {
        if waiting.len() > 0 {
            assert((waiting + sent).drop_first() =~= waiting.drop_first() + sent);
        } else {
            assert(waiting + sent =~= sent);
        }
    }
}

} // verus!
