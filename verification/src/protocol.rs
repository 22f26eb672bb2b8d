//! The counter protocol as a transition system.
//!
//! Handles on one control block may be held by many parties that act at the
//! same time. What they share is the block; what each of them does to it is a
//! sequence of single atomic steps, and the steps of different parties may
//! follow each other in any order. A [`Family`] is one control block together
//! with a census of its handles and of the operations that are under way on
//! it; a [`Step`] is one atomic step of one operation.
//!
//! An operation that only reads (the first read of an upgrade, an exchange
//! that finds another value than it expected, the probe for exclusive access,
//! a read of the value) changes nothing and is no step. What such a read may
//! find is stated of the state in which it is made.
//!
//! The increments are guarded: one that finds more than [`MAX_REFCOUNT`] in
//! its counter stops the process, and so does an exchange that finds the
//! largest machine word. Here such a step is simply not enabled.
use crate::block::Block;
use crate::refcount::MAX_REFCOUNT;
use vstd::prelude::*;

verus! {

/// One control block and everything that refers to it.
pub struct Family<T> {
    /// The block, or `None` once it has been freed.
    pub memory: Option<Block<T>>,
    /// The strong handles.
    pub arcs: nat,
    /// The weak handles.
    pub weaks: nat,
    /// The clones of a strong handle that have taken their seat and not yet
    /// their unit of the strong count.
    pub promoting: nat,
    /// The upgrades that have taken their unit of the strong count and not
    /// yet their seat.
    pub seating: nat,
    /// The drops of a strong handle that found the strong count at one and
    /// have not yet destroyed the value.
    pub clearing: nat,
    /// The drops of a strong handle that are through with the strong count
    /// and the value, and still hold the seat.
    pub retiring: nat,
    /// The drops that found the count of all handles at one and have not yet
    /// freed the block.
    pub freeing: nat,
    /// How often the value has been destroyed.
    pub destroyed: nat,
    /// How often the block has been freed.
    pub freed: nat,
}

/// One atomic step of one operation.
pub enum Step<T> {
    /// `Weak::clone`: the increment of the count of all handles.
    CloneWeak,
    /// `Arc::downgrade`: the increment of the count of all handles.
    Downgrade,
    /// `Arc::clone`, first half: the increment of the count of all handles.
    CloneSeat,
    /// `Arc::clone`, second half: the increment of the strong count.
    CloneCount,
    /// `Weak::upgrade`: an exchange that takes place.
    UpgradeCount,
    /// `Weak::upgrade`, after the exchange: the increment of the count of all
    /// handles.
    UpgradeSeat,
    /// `Arc::drop`: the decrement of the strong count.
    DropCount,
    /// `Arc::drop`, after a decrement that found one: the value is destroyed.
    DropValue,
    /// `Arc::drop`, at its end: the decrement of the count of all handles, for
    /// the seat.
    DropSeat,
    /// `Weak::drop`: the decrement of the count of all handles.
    DropWeak,
    /// Any drop, after a decrement of the count of all handles that found
    /// one: the block is freed.
    Free,
    /// A store through the exclusive access that `Arc::get_mut` gave.
    Write(T),
}

impl<T> Family<T> {
    /// The family that construction leaves: the block, and one strong handle.
    pub open spec fn initial(value: T) -> Self {
        Family {
            memory: Some(Block::initial(value)),
            arcs: 1,
            weaks: 0,
            promoting: 0,
            seating: 0,
            clearing: 0,
            retiring: 0,
            freeing: 0,
            destroyed: 0,
            freed: 0,
        }
    }

    /// Those who own the value: the strong handles, and the upgrades that
    /// have their unit of the strong count already.
    pub open spec fn owners(self) -> nat {
        self.arcs + self.seating
    }

    /// Those who hold a unit of the count of all handles.
    pub open spec fn seats(self) -> nat {
        self.arcs + self.weaks + self.promoting + self.clearing + self.retiring
    }

    /// No operation is under way.
    pub open spec fn quiescent(self) -> bool {
        &&& self.promoting == 0
        &&& self.seating == 0
        &&& self.clearing == 0
        &&& self.retiring == 0
        &&& self.freeing == 0
    }

    /// The value is in its slot.
    pub open spec fn populated(self) -> bool {
        self.memory matches Some(block) && block.slot is Some
    }

    /// Whether some party can take `step` now.
    ///
    /// A handle that an operation under way has borrowed cannot be dropped:
    /// a clone between its two halves keeps a strong handle, an upgrade
    /// between exchange and seat keeps a weak one. The census does not say
    /// which handle that is, so a drop is enabled whenever it leaves one
    /// handle of that kind behind. That admits more orders than can occur;
    /// what holds of all of them holds of those that can.
    pub open spec fn enabled(self, step: Step<T>) -> bool {
        match self.memory {
            None => false,
            Some(block) => match step {
                Step::CloneWeak => self.weaks >= 1 && block.total <= MAX_REFCOUNT,
                Step::Downgrade => self.arcs >= 1 && block.total <= MAX_REFCOUNT,
                Step::CloneSeat => self.arcs >= 1 && block.total <= MAX_REFCOUNT,
                Step::CloneCount => self.promoting >= 1 && block.strong <= MAX_REFCOUNT,
                Step::UpgradeCount => self.weaks >= 1 && 1 <= block.strong < usize::MAX,
                Step::UpgradeSeat => self.seating >= 1 && block.total <= MAX_REFCOUNT,
                Step::DropCount => self.arcs >= 1 && (self.promoting >= 1 ==> self.arcs >= 2),
                Step::DropValue => self.clearing >= 1,
                Step::DropSeat => self.retiring >= 1,
                Step::DropWeak => self.weaks >= 1 && (self.seating >= 1 ==> self.weaks >= 2),
                Step::Free => self.freeing >= 1,
                Step::Write(_) => self.arcs >= 1 && block.total == 1,
            },
        }
    }

    /// The family after `step`.
    pub open spec fn apply(self, step: Step<T>) -> Self
        recommends
            self.enabled(step),
    {
        let block = self.memory->0;
        match step {
            Step::CloneWeak | Step::Downgrade => Family {
                memory: Some(block.retain_total()),
                weaks: self.weaks + 1,
                ..self
            },
            Step::CloneSeat => Family {
                memory: Some(block.retain_total()),
                promoting: self.promoting + 1,
                ..self
            },
            Step::CloneCount => Family {
                memory: Some(block.retain_strong()),
                promoting: (self.promoting - 1) as nat,
                arcs: self.arcs + 1,
                ..self
            },
            Step::UpgradeCount => Family {
                memory: Some(block.retain_strong()),
                seating: self.seating + 1,
                ..self
            },
            Step::UpgradeSeat => Family {
                memory: Some(block.retain_total()),
                seating: (self.seating - 1) as nat,
                arcs: self.arcs + 1,
                ..self
            },
            Step::DropCount => if block.strong == 1 {
                Family {
                    memory: Some(block.release_strong()),
                    arcs: (self.arcs - 1) as nat,
                    clearing: self.clearing + 1,
                    ..self
                }
            } else {
                Family {
                    memory: Some(block.release_strong()),
                    arcs: (self.arcs - 1) as nat,
                    retiring: self.retiring + 1,
                    ..self
                }
            },
            Step::DropValue => Family {
                memory: Some(block.cleared()),
                clearing: (self.clearing - 1) as nat,
                retiring: self.retiring + 1,
                destroyed: self.destroyed + 1,
                ..self
            },
            Step::DropSeat => Family {
                memory: Some(block.release_total()),
                retiring: (self.retiring - 1) as nat,
                freeing: if block.total == 1 {
                    self.freeing + 1
                } else {
                    self.freeing
                },
                ..self
            },
            Step::DropWeak => Family {
                memory: Some(block.release_total()),
                weaks: (self.weaks - 1) as nat,
                freeing: if block.total == 1 {
                    self.freeing + 1
                } else {
                    self.freeing
                },
                ..self
            },
            Step::Free => Family {
                memory: None,
                freeing: (self.freeing - 1) as nat,
                freed: self.freed + 1,
                ..self
            },
            Step::Write(value) => Family { memory: Some(block.holding(value)), ..self },
        }
    }

    /// Whether the steps of `trace` can be taken one after the other.
    pub open spec fn admits(self, trace: Seq<Step<T>>) -> bool
        decreases trace.len(),
    {
        trace.len() == 0 || (self.admits(trace.drop_last()) && self.run(
            trace.drop_last(),
        ).enabled(trace.last()))
    }

    /// The family after the steps of `trace`.
    pub open spec fn run(self, trace: Seq<Step<T>>) -> Self
        decreases trace.len(),
    {
        if trace.len() == 0 {
            self
        } else {
            self.run(trace.drop_last()).apply(trace.last())
        }
    }

    /// What holds of a family at every moment.
    ///
    /// The counters count what they are meant to count. The value is
    /// destroyed once, by the drop that found the strong count at one, and
    /// is in its slot until then. The block is freed once, by the drop that
    /// found the count of all handles at one, and is allocated until then.
    pub open spec fn inv(self) -> bool {
        &&& self.destroyed <= 1
        &&& self.freed <= 1
        &&& self.clearing <= 1
        &&& self.freeing <= 1
        &&& self.promoting >= 1 ==> self.arcs >= 1
        &&& self.seating >= 1 ==> self.weaks >= 1
        &&& match self.memory {
            Some(block) => {
                &&& self.freed == 0
                &&& block.strong == self.owners()
                &&& block.total == self.seats()
                &&& block.strong <= usize::MAX
                &&& block.total <= MAX_REFCOUNT + 1
                &&& (self.freeing == 1 <==> block.total == 0)
                &&& (self.clearing == 1 ==> block.strong == 0)
                &&& (block.slot is Some <==> self.destroyed == 0)
                &&& (self.destroyed == 0 <==> block.strong >= 1 || self.clearing == 1)
            },
            None => {
                &&& self.freed == 1
                &&& self.destroyed == 1
                &&& self.owners() == 0
                &&& self.seats() == 0
                &&& self.freeing == 0
            },
        }
    }

    /// Construction leaves a family of which the invariant holds.
    pub proof fn lemma_initial_inv(value: T)
        ensures
            Self::initial(value).inv(),
    {
    }

    /// No step breaks the invariant.
    pub proof fn lemma_step_keeps_inv(self, step: Step<T>)
        requires
            self.inv(),
            self.enabled(step),
        ensures
            self.apply(step).inv(),
    {
    }

    /// No interleaving of steps breaks the invariant.
    pub proof fn lemma_trace_keeps_inv(self, trace: Seq<Step<T>>)
        requires
            self.inv(),
            self.admits(trace),
        ensures
            self.run(trace).inv(),
        decreases trace.len(),
    {
        if trace.len() > 0 {
            self.lemma_trace_keeps_inv(trace.drop_last());
            self.run(trace.drop_last()).lemma_step_keeps_inv(trace.last());
        }
    }

    /// The value is destroyed exactly once, when the last strong handle has
    /// been dropped: not while anyone owns it, and not later than the drop
    /// that found the strong count at one gets to it. Until then it is in its
    /// slot, so that whoever reads through a strong handle finds it. The weak
    /// handles have no part in this.
    pub proof fn law_value_destroyed_once(self)
        requires
            self.inv(),
        ensures
            self.destroyed <= 1,
            self.owners() >= 1 ==> self.destroyed == 0 && self.populated(),
            self.owners() == 0 && self.clearing == 1 ==> self.destroyed == 0 && self.populated(),
            self.owners() == 0 && self.clearing == 0 ==> self.destroyed == 1 && !self.populated(),
            self.clearing == 1 ==> self.enabled(Step::DropValue),
    {
    }

    /// Only one step destroys the value, and only a decrement of the strong
    /// count that found it at one opens the way to that step.
    pub proof fn law_destruction_follows_last_drop(self, step: Step<T>)
        requires
            self.inv(),
            self.enabled(step),
        ensures
            self.apply(step).destroyed == self.destroyed + 1 <==> step is DropValue,
            self.apply(step).destroyed == self.destroyed <==> !(step is DropValue),
            self.apply(step).clearing == self.clearing + 1 <==> step is DropCount
                && self.owners() == 1,
            step is DropValue ==> self.owners() == 0 && self.destroyed == 0,
    {
    }

    /// The block is freed exactly once, when the last handle of either kind
    /// has been dropped: not while anyone holds a seat, and not before the
    /// value has been destroyed.
    pub proof fn law_block_freed_once(self)
        requires
            self.inv(),
        ensures
            self.freed <= 1,
            self.seats() >= 1 ==> self.freed == 0 && self.memory is Some,
            self.seats() == 0 && self.freeing == 1 ==> self.freed == 0 && self.memory is Some,
            self.seats() == 0 && self.freeing == 0 ==> self.freed == 1 && self.memory is None,
            self.seats() == 0 ==> self.owners() == 0 && self.destroyed == 1,
            self.freeing == 1 ==> self.enabled(Step::Free),
    {
    }

    /// Only one step frees the block, and only a decrement of the count of
    /// all handles that found it at one opens the way to that step.
    pub proof fn law_free_follows_last_drop(self, step: Step<T>)
        requires
            self.inv(),
            self.enabled(step),
        ensures
            self.apply(step).freed == self.freed + 1 <==> step is Free,
            self.apply(step).freed == self.freed <==> !(step is Free),
            self.apply(step).freeing == self.freeing + 1 <==> (step is DropSeat
                || step is DropWeak) && self.seats() == 1,
            step is Free ==> self.seats() == 0 && self.freed == 0,
    {
    }

    /// A strong handle finds the count of all handles at one if and only if
    /// it is the only handle of either kind and no operation is under way.
    /// Then nobody else can take a step: every step that is enabled goes
    /// through that one handle.
    pub proof fn law_exclusive_iff_sole_handle(self)
        requires
            self.inv(),
            self.arcs >= 1,
        ensures
            self.memory is Some,
            self.memory->0.total == 1 <==> self.arcs == 1 && self.weaks == 0 && self.quiescent(),
            self.memory->0.total == 1 ==> forall|step: Step<T>| #[trigger]
                self.enabled(step) ==> step is Downgrade || step is CloneSeat || step is DropCount
                    || step is Write,
    {
    }

    /// A strong count of zero is final: whatever steps follow, it stays zero
    /// for as long as the block exists. An upgrade that comes after the last
    /// strong handle has been dropped finds nothing.
    pub proof fn law_absent_is_final(self, trace: Seq<Step<T>>)
        requires
            self.inv(),
            self.admits(trace),
            self.owners() == 0,
        ensures
            self.run(trace).owners() == 0,
            self.run(trace).memory matches Some(block) ==> block.strong == 0,
        decreases trace.len(),
    {
        if trace.len() > 0 {
            self.law_absent_is_final(trace.drop_last());
            self.lemma_trace_keeps_inv(trace.drop_last());
            self.run(trace.drop_last()).lemma_step_keeps_inv(trace.last());
        }
    }

    /// While a strong handle exists, an upgrade cannot find the strong count
    /// at zero. Its exchange leaves the value in its slot as it was, and the
    /// seat it then takes completes a strong handle on that value.
    pub proof fn law_upgrade_finds_value(self)
        requires
            self.inv(),
        ensures
            self.arcs >= 1 ==> self.memory is Some && self.memory->0.strong >= 1,
            self.enabled(Step::UpgradeCount) ==> {
                let taken = self.apply(Step::UpgradeCount);
                &&& taken.populated()
                &&& taken.memory->0.slot == self.memory->0.slot
                &&& taken.seating == self.seating + 1
            },
            self.enabled(Step::UpgradeSeat) ==> {
                let seated = self.apply(Step::UpgradeSeat);
                &&& seated.populated()
                &&& seated.memory->0.slot == self.memory->0.slot
                &&& seated.arcs == self.arcs + 1
            },
    {
    }

    /// A trace with one more step at its end is admitted if the trace is and
    /// the step is enabled after it, and leaves what the step makes of what
    /// the trace leaves.
    pub proof fn lemma_one_more_step(self, trace: Seq<Step<T>>, step: Step<T>)
        ensures
            self.admits(trace.push(step)) <==> self.admits(trace) && self.run(trace).enabled(step),
            self.run(trace.push(step)) == self.run(trace).apply(step),
    {
        assert(trace.push(step).drop_last() =~= trace);
    }

    /// Between operations, the block is at rest and its counters are the
    /// census: the strong count is the number of strong handles, the count of
    /// all handles the number of handles of either kind.
    pub proof fn lemma_quiescent_at_rest(self)
        requires
            self.inv(),
            self.quiescent(),
            self.memory is Some,
        ensures
            self.memory->0.at_rest(),
            self.memory->0.strong == self.arcs,
            self.memory->0.total == self.arcs + self.weaks,
            self.arcs >= 1 <==> self.memory->0.strong >= 1,
            self.weaks >= 1 <==> self.memory->0.strong < self.memory->0.total,
    {
    }

    /// The steps of `Arc::clone`, run without interruption.
    pub open spec fn clone_arc() -> Seq<Step<T>> {
        Seq::empty().push(Step::CloneSeat).push(Step::CloneCount)
    }

    /// The steps of a `Weak::upgrade` that finds the value, run without
    /// interruption.
    pub open spec fn upgrade() -> Seq<Step<T>> {
        Seq::empty().push(Step::UpgradeCount).push(Step::UpgradeSeat)
    }

    /// The steps of `Arc::drop`, run without interruption on a block with
    /// `strong` strong handles among `total` handles.
    pub open spec fn drop_arc(strong: nat, total: nat) -> Seq<Step<T>> {
        let count = Seq::empty().push(Step::DropCount);
        let value = if strong == 1 {
            count.push(Step::DropValue)
        } else {
            count
        };
        let seat = value.push(Step::DropSeat);
        if total == 1 {
            seat.push(Step::Free)
        } else {
            seat
        }
    }

    /// The steps of `Weak::drop`, run without interruption on a block with
    /// `total` handles.
    pub open spec fn drop_weak(total: nat) -> Seq<Step<T>> {
        let seat = Seq::empty().push(Step::DropWeak);
        if total == 1 {
            seat.push(Step::Free)
        } else {
            seat
        }
    }

    /// `Arc::clone` run alone is an interleaving, and leaves the block that
    /// the operation is said to leave, with one strong handle more.
    pub proof fn lemma_clone_arc_alone(self)
        requires
            self.inv(),
            self.quiescent(),
            self.arcs >= 1,
            self.memory->0.total <= MAX_REFCOUNT,
        ensures
            self.admits(Self::clone_arc()),
            self.run(Self::clone_arc()) == (Family {
                memory: Some(self.memory->0.with_strong()),
                arcs: self.arcs + 1,
                ..self
            }),
    {
        let first = Seq::<Step<T>>::empty().push(Step::CloneSeat);
        self.lemma_one_more_step(Seq::empty(), Step::CloneSeat);
        self.lemma_one_more_step(first, Step::CloneCount);
    }

    /// `Arc::downgrade` and `Weak::clone` are one step each, and leave the
    /// block that the operations are said to leave, with one weak handle
    /// more.
    pub proof fn lemma_clone_weak_alone(self, step: Step<T>)
        requires
            self.inv(),
            self.quiescent(),
            step is Downgrade && self.arcs >= 1 || step is CloneWeak && self.weaks >= 1,
            self.memory->0.total <= MAX_REFCOUNT,
        ensures
            self.enabled(step),
            self.apply(step) == (Family {
                memory: Some(self.memory->0.with_weak()),
                weaks: self.weaks + 1,
                ..self
            }),
    {
    }

    /// A store through the exclusive access of `Arc::get_mut` is one step,
    /// open to the only handle of a family at rest, and leaves the block
    /// that the operation is said to leave.
    pub proof fn lemma_write_alone(self, value: T)
        requires
            self.inv(),
            self.quiescent(),
            self.arcs == 1,
            self.weaks == 0,
        ensures
            self.enabled(Step::Write(value)),
            self.apply(Step::Write(value)) == (Family {
                memory: Some(self.memory->0.holding(value)),
                ..self
            }),
            self.apply(Step::Write(value)).quiescent(),
    {
    }

    /// A `Weak::upgrade` that finds the value and runs alone is an
    /// interleaving, and leaves the block that the operation is said to
    /// leave, with one strong handle more.
    pub proof fn lemma_upgrade_alone(self)
        requires
            self.inv(),
            self.quiescent(),
            self.weaks >= 1,
            self.arcs >= 1,
            self.memory->0.total <= MAX_REFCOUNT,
        ensures
            self.admits(Self::upgrade()),
            self.run(Self::upgrade()) == (Family {
                memory: Some(self.memory->0.with_strong()),
                arcs: self.arcs + 1,
                ..self
            }),
    {
        let first = Seq::<Step<T>>::empty().push(Step::UpgradeCount);
        self.lemma_one_more_step(Seq::empty(), Step::UpgradeCount);
        self.lemma_one_more_step(first, Step::UpgradeSeat);
    }

    /// `Arc::drop` run alone is an interleaving, and leaves what the
    /// operation is said to leave of the block, with one strong handle less.
    /// It destroys the value if and only if the handle was the last strong
    /// one, and frees the block if and only if it was the last of either kind.
    pub proof fn lemma_drop_arc_alone(self)
        requires
            self.inv(),
            self.quiescent(),
            self.arcs >= 1,
        ensures
            ({
                let block = self.memory->0;
                let trace = Self::drop_arc(block.strong, block.total);
                let after = self.run(trace);
                &&& self.admits(trace)
                &&& after.memory == block.without_strong()
                &&& after.arcs == self.arcs - 1
                &&& after.weaks == self.weaks
                &&& after.quiescent()
                &&& after.destroyed == self.destroyed + if self.arcs == 1 {
                    1nat
                } else {
                    0nat
                }
                &&& after.freed == self.freed + if self.arcs + self.weaks == 1 {
                    1nat
                } else {
                    0nat
                }
            }),
    {
        let block = self.memory->0;
        let count = Seq::<Step<T>>::empty().push(Step::DropCount);
        self.lemma_one_more_step(Seq::empty(), Step::DropCount);
        let value = if block.strong == 1 {
            count.push(Step::DropValue)
        } else {
            count
        };
        if block.strong == 1 {
            self.lemma_one_more_step(count, Step::DropValue);
        }
        let seat = value.push(Step::DropSeat);
        self.lemma_one_more_step(value, Step::DropSeat);
        if block.total == 1 {
            self.lemma_one_more_step(seat, Step::Free);
        }
    }

    /// `Weak::drop` run alone is an interleaving, and leaves what the
    /// operation is said to leave of the block, with one weak handle less. It
    /// never touches the value, and frees the block if and only if the
    /// handle was the last of either kind.
    pub proof fn lemma_drop_weak_alone(self)
        requires
            self.inv(),
            self.quiescent(),
            self.weaks >= 1,
        ensures
            ({
                let block = self.memory->0;
                let trace = Self::drop_weak(block.total);
                let after = self.run(trace);
                &&& self.admits(trace)
                &&& after.memory == block.without_weak()
                &&& after.arcs == self.arcs
                &&& after.weaks == self.weaks - 1
                &&& after.quiescent()
                &&& after.destroyed == self.destroyed
                &&& after.freed == self.freed + if self.arcs + self.weaks == 1 {
                    1nat
                } else {
                    0nat
                }
            }),
    {
        let block = self.memory->0;
        let seat = Seq::<Step<T>>::empty().push(Step::DropWeak);
        self.lemma_one_more_step(Seq::empty(), Step::DropWeak);
        if block.total == 1 {
            self.lemma_one_more_step(seat, Step::Free);
        }
    }
}

} // verus!
