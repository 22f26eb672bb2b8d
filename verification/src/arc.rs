//! The strong handle `Arc` and the weak handle `Weak`.
//!
//! A handle names a control block in a [`Heap`]. Handles are made by the
//! operations here and by nothing else, and every one of them stands for one
//! unit of a counter of its block: a `Weak` for one unit of the count of all
//! handles, an `Arc` for one unit of the strong count and for the seat it
//! carries, which is a `Weak` of its own. A handle that is no longer wanted is
//! given back with `drop`, which takes the units out of the counters again.
use crate::block::Block;
use crate::heap::Heap;
use crate::refcount::{is_exclusive, is_last, upgrade_attempt, upgrade_retry, Attempt, MAX_REFCOUNT};
use std::marker::PhantomData;
use vstd::prelude::*;

verus! {

/// An owning handle: while it exists, the value does.
pub struct Arc<T> {
    weak: Weak<T>,
}

/// An observing handle: it keeps the control block, not the value.
pub struct Weak<T> {
    ptr: usize,
    marker: PhantomData<T>,
}

impl<T> View for Weak<T> {
    type V = usize;

    /// The address of the control block.
    closed spec fn view(&self) -> usize {
        self.ptr
    }
}

impl<T> View for Arc<T> {
    type V = usize;

    /// The address of the control block.
    closed spec fn view(&self) -> usize {
        self.weak.ptr
    }
}

impl<T> Weak<T> {
    /// This handle observes a block of `heap`: the block is allocated and
    /// counts a handle that is no strong handle's seat.
    pub open spec fn valid(&self, heap: &Heap<T>) -> bool {
        &&& heap.wf()
        &&& heap.allocated(self@)
        &&& heap.block(self@).strong < heap.block(self@).total
    }

    /// The address of the control block.
    pub fn addr(&self) -> (ptr: usize)
        ensures
            ptr == self@,
    {
        self.ptr
    }

    /// Counts one more handle of either kind.
    fn retain(&self, heap: &mut Heap<T>) -> (weak: Weak<T>)
        requires
            old(heap).allocated(self@),
            old(heap).block(self@).total <= MAX_REFCOUNT,
        ensures
            weak@ == self@,
            final(heap)@ == old(heap).with(self@, Some(old(heap).block(self@).retain_total())),
    {
        heap.at_mut(self.ptr).fetch_add_alloc_ref_count();
        Weak { ptr: self.ptr, marker: PhantomData }
    }

    /// Counts one handle of either kind less, and frees the block if that was
    /// the last.
    fn release(self, heap: &mut Heap<T>)
        requires
            old(heap).allocated(self@),
            old(heap).block(self@).total >= 1,
        ensures
            final(heap)@ == old(heap).with(self@, old(heap).block(self@).without_weak()),
    {
        let previous: usize = heap.at_mut(self.ptr).fetch_sub_alloc_ref_count();
        if is_last(previous) {
            heap.free(self.ptr);
        }
        assert(heap@ =~= old(heap).with(self@, old(heap).block(self@).without_weak()));
    }

    /// Tries to turn observation into ownership.
    ///
    /// Reads the strong count. Zero means that the value has been destroyed,
    /// and since a strong count never leaves zero again the answer `None` is
    /// final. Any other count is exchanged for its successor; the handle that
    /// comes back carries a seat of its own, so the count of all handles goes
    /// up as well. `self` stays what it was.
    ///
    /// An exchange fails only if the counter changed after it was read, and is
    /// then tried again with the value found. Nothing else steps the store
    /// between the two, so here the first exchange takes place.
    pub fn upgrade(&self, heap: &mut Heap<T>) -> (arc: Option<Arc<T>>)
        requires
            self.valid(old(heap)),
            old(heap).block(self@).strong >= 1 ==> old(heap).block(self@).total <= MAX_REFCOUNT,
        ensures
            arc is Some <==> old(heap).block(self@).strong >= 1,
            arc is None ==> final(heap)@ == old(heap)@,
            arc matches Some(strong) ==> strong@ == self@ && strong.valid(final(heap))
                && final(heap)@ == old(heap).with(
                self@,
                Some(old(heap).block(self@).with_strong()),
            ),
            self.valid(final(heap)),
    {
        let mut n: usize = heap.at(self.ptr).load_data_ref_count();
        loop
            invariant
                heap@ == old(heap)@,
                self.valid(heap),
                n == heap.block(self@).strong,
                heap.block(self@).strong >= 1 ==> heap.block(self@).total <= MAX_REFCOUNT,
            decreases 0int,
        {
            match upgrade_attempt(n) {
                Attempt::Absent => {
                    return None;
                },
                Attempt::Exchange { current, new } => {
                    let outcome = heap.at_mut(self.ptr).compare_exchange_data_ref_count(
                        current,
                        new,
                    );
                    match upgrade_retry(outcome) {
                        Some(seen) => {
                            n = seen;
                        },
                        None => {
                            let weak = self.retain(heap);
                            assert(heap@ =~= old(heap).with(
                                self@,
                                Some(old(heap).block(self@).with_strong()),
                            ));
                            return Some(Arc { weak });
                        },
                    }
                },
            }
        }
    }

    /// A second weak handle on the same block.
    pub fn clone(&self, heap: &mut Heap<T>) -> (weak: Weak<T>)
        requires
            self.valid(old(heap)),
            old(heap).block(self@).total <= MAX_REFCOUNT,
        ensures
            weak@ == self@,
            final(heap)@ == old(heap).with(self@, Some(old(heap).block(self@).with_weak())),
            self.valid(final(heap)),
            weak.valid(final(heap)),
    {
        self.retain(heap)
    }

    /// Gives the handle back. The block is freed if this was its last handle
    /// of either kind. The value is not touched: a weak handle never owns it.
    pub fn drop(self, heap: &mut Heap<T>)
        requires
            self.valid(old(heap)),
        ensures
            final(heap)@ == old(heap).with(self@, old(heap).block(self@).without_weak()),
            final(heap).wf(),
    {
        self.release(heap)
    }
}

impl<T> Arc<T> {
    /// This handle owns the value of a block of `heap`: the block is
    /// allocated and counts a strong handle.
    pub open spec fn valid(&self, heap: &Heap<T>) -> bool {
        &&& heap.wf()
        &&& heap.allocated(self@)
        &&& heap.block(self@).strong >= 1
    }

    /// The address of the control block.
    pub fn addr(&self) -> (ptr: usize)
        ensures
            ptr == self@,
    {
        self.weak.ptr
    }

    /// Puts `data` into a fresh control block, at an address that no block
    /// has had before, and returns the one handle on it.
    pub fn new(data: T, heap: &mut Heap<T>) -> (arc: Arc<T>)
        requires
            old(heap).wf(),
        ensures
            arc@ == old(heap)@.len(),
            final(heap)@ == old(heap)@.push(Some(Block::initial(data))),
            arc.valid(final(heap)),
    {
        let ptr: usize = heap.allocate(data);
        Arc { weak: Weak { ptr, marker: PhantomData } }
    }

    /// Exclusive access to the value, if this is the only handle of either
    /// kind. A weak handle stands in the way as much as a strong one does: it
    /// could be upgraded at any moment.
    pub fn get_mut<'a>(arc: &mut Self, heap: &'a mut Heap<T>) -> (value: Option<&'a mut T>)
        requires
            old(arc).valid(old(heap)),
        ensures
            *final(arc) == *old(arc),
            value is Some <==> old(heap).block(old(arc)@).total == 1,
            value is None ==> final(heap)@ == old(heap)@,
            value matches Some(data) ==> Some(*data) == old(heap).block(old(arc)@).slot
                && final(heap)@ == old(heap).with(
                old(arc)@,
                Some(old(heap).block(old(arc)@).holding(*final(data))),
            ),
            final(arc).valid(final(heap)),
    {
        if is_exclusive(heap.at(arc.weak.ptr).load_alloc_ref_count()) {
            Some(heap.at_mut(arc.weak.ptr).data_mut())
        } else {
            None
        }
    }

    /// A weak handle on the block of `arc`.
    pub fn downgrade(arc: &Self, heap: &mut Heap<T>) -> (weak: Weak<T>)
        requires
            arc.valid(old(heap)),
            old(heap).block(arc@).total <= MAX_REFCOUNT,
        ensures
            weak@ == arc@,
            final(heap)@ == old(heap).with(arc@, Some(old(heap).block(arc@).with_weak())),
            arc.valid(final(heap)),
            weak.valid(final(heap)),
    {
        arc.weak.retain(heap)
    }

    /// The value. Holding the handle is all it takes: the strong count is not
    /// zero, so the slot is full.
    pub fn deref<'a>(&self, heap: &'a Heap<T>) -> (value: &'a T)
        requires
            self.valid(heap),
        ensures
            Some(*value) == heap.block(self@).slot,
    {
        heap.at(self.weak.ptr).data()
    }

    /// A second strong handle on the same block, with a seat of its own.
    pub fn clone(&self, heap: &mut Heap<T>) -> (arc: Arc<T>)
        requires
            self.valid(old(heap)),
            old(heap).block(self@).total <= MAX_REFCOUNT,
        ensures
            arc@ == self@,
            final(heap)@ == old(heap).with(self@, Some(old(heap).block(self@).with_strong())),
            self.valid(final(heap)),
            arc.valid(final(heap)),
    {
        let weak = self.weak.retain(heap);
        heap.at_mut(weak.ptr).fetch_add_data_ref_count();
        assert(heap@ =~= old(heap).with(self@, Some(old(heap).block(self@).with_strong())));
        Arc { weak }
    }

    /// Gives the handle back. If it was the last strong handle, the value is
    /// destroyed, whatever weak handles remain. Then the seat goes, and with
    /// it the block if no handle of either kind is left.
    pub fn drop(self, heap: &mut Heap<T>)
        requires
            self.valid(old(heap)),
        ensures
            final(heap)@ == old(heap).with(self@, old(heap).block(self@).without_strong()),
            final(heap).wf(),
    {
        let previous: usize = heap.at_mut(self.weak.ptr).fetch_sub_data_ref_count();
        if is_last(previous) {
            heap.at_mut(self.weak.ptr).clear();
        }
        self.weak.release(heap);
        assert(heap@ =~= old(heap).with(self@, old(heap).block(self@).without_strong()));
    }
}

} // verus!
