//! The control block: two counters and the slot that holds the value.
use vstd::prelude::*;

verus! {

/// What a control block holds, as a mathematical value.
pub struct Block<T> {
    /// The number of strong handles.
    pub strong: nat,
    /// The number of handles of either kind. Every strong handle counts here
    /// too, through the seat it carries.
    pub total: nat,
    /// The value, or `None` once it has been destroyed.
    pub slot: Option<T>,
}

impl<T> Block<T> {
    /// The block that construction leaves: one strong handle, and the value.
    pub open spec fn initial(value: T) -> Self {
        Block { strong: 1, total: 1, slot: Some(value) }
    }

    /// One more handle of either kind.
    pub open spec fn retain_total(self) -> Self {
        Block { total: self.total + 1, ..self }
    }

    /// One handle of either kind less.
    pub open spec fn release_total(self) -> Self
        recommends
            self.total >= 1,
    {
        Block { total: (self.total - 1) as nat, ..self }
    }

    /// One more strong handle.
    pub open spec fn retain_strong(self) -> Self {
        Block { strong: self.strong + 1, ..self }
    }

    /// One strong handle less.
    pub open spec fn release_strong(self) -> Self
        recommends
            self.strong >= 1,
    {
        Block { strong: (self.strong - 1) as nat, ..self }
    }

    /// The value destroyed.
    pub open spec fn cleared(self) -> Self {
        Block { slot: None, ..self }
    }

    /// The value replaced.
    pub open spec fn holding(self, value: T) -> Self {
        Block { slot: Some(value), ..self }
    }

    /// The block after one more weak handle has been made.
    pub open spec fn with_weak(self) -> Self {
        self.retain_total()
    }

    /// The block after one more strong handle has been made, which brings a
    /// seat of its own.
    pub open spec fn with_strong(self) -> Self {
        self.retain_total().retain_strong()
    }

    /// What is left of the block when a weak handle has gone: nothing if it
    /// was the last handle of either kind.
    pub open spec fn without_weak(self) -> Option<Self>
        recommends
            self.total >= 1,
    {
        if self.total == 1 {
            None
        } else {
            Some(self.release_total())
        }
    }

    /// What is left of the block when a strong handle has gone: the value is
    /// destroyed if it was the last strong handle, and nothing is left if it
    /// was the last handle of either kind.
    pub open spec fn without_strong(self) -> Option<Self>
        recommends
            self.strong >= 1,
            self.total >= 1,
    {
        if self.strong == 1 {
            self.release_strong().cleared().without_weak()
        } else {
            self.release_strong().without_weak()
        }
    }

    /// What holds of a block while no operation is under way on it: it has a
    /// handle, no more strong handles than handles, and the value exactly as
    /// long as it has a strong handle.
    pub open spec fn at_rest(self) -> bool {
        &&& self.total >= 1
        &&& self.strong <= self.total
        &&& self.slot is Some <==> self.strong >= 1
    }
}

/// The control block as it lies in memory.
pub(crate) struct ArcData<T> {
    // Number of strong handles
    data_ref_count: usize,
    // Number of strong and weak handles combined
    alloc_ref_count: usize,
    // The data, None if there's only weak handles left
    data: Option<T>,
}

impl<T> View for ArcData<T> {
    type V = Block<T>;

    closed spec fn view(&self) -> Block<T> {
        Block {
            strong: self.data_ref_count as nat,
            total: self.alloc_ref_count as nat,
            slot: self.data,
        }
    }
}

impl<T> ArcData<T> {
    /// A block for `data`, with one strong handle.
    pub(crate) fn new(data: T) -> (block: Self)
        ensures
            block@ == Block::initial(data),
    {
        ArcData { data_ref_count: 1, alloc_ref_count: 1, data: Some(data) }
    }

    /// Both counters fit a machine word.
    pub(crate) proof fn lemma_counters_bounded(&self)
        ensures
            self@.strong <= usize::MAX,
            self@.total <= usize::MAX,
    {
    }

    /// Reads the strong counter.
    pub(crate) fn load_data_ref_count(&self) -> (n: usize)
        ensures
            n == self@.strong,
    {
        self.data_ref_count
    }

    /// Reads the counter of all handles.
    pub(crate) fn load_alloc_ref_count(&self) -> (n: usize)
        ensures
            n == self@.total,
    {
        self.alloc_ref_count
    }

    /// Adds one to the counter of all handles and returns what it held.
    pub(crate) fn fetch_add_alloc_ref_count(&mut self) -> (previous: usize)
        requires
            old(self)@.total < usize::MAX,
        ensures
            previous == old(self)@.total,
            final(self)@ == old(self)@.retain_total(),
    {
        let previous: usize = self.alloc_ref_count;
        self.alloc_ref_count = previous + 1;
        previous
    }

    /// Takes one from the counter of all handles and returns what it held.
    pub(crate) fn fetch_sub_alloc_ref_count(&mut self) -> (previous: usize)
        requires
            old(self)@.total >= 1,
        ensures
            previous == old(self)@.total,
            final(self)@ == old(self)@.release_total(),
    {
        let previous: usize = self.alloc_ref_count;
        self.alloc_ref_count = previous - 1;
        previous
    }

    /// Adds one to the strong counter and returns what it held.
    pub(crate) fn fetch_add_data_ref_count(&mut self) -> (previous: usize)
        requires
            old(self)@.strong < usize::MAX,
        ensures
            previous == old(self)@.strong,
            final(self)@ == old(self)@.retain_strong(),
    {
        let previous: usize = self.data_ref_count;
        self.data_ref_count = previous + 1;
        previous
    }

    /// Takes one from the strong counter and returns what it held.
    pub(crate) fn fetch_sub_data_ref_count(&mut self) -> (previous: usize)
        requires
            old(self)@.strong >= 1,
        ensures
            previous == old(self)@.strong,
            final(self)@ == old(self)@.release_strong(),
    {
        let previous: usize = self.data_ref_count;
        self.data_ref_count = previous - 1;
        previous
    }

    /// Replaces `current` by `new` in the strong counter if it holds `current`,
    /// and leaves it alone otherwise. Returns what the counter held: in `Ok`
    /// when it was replaced, in `Err` when it was not.
    pub(crate) fn compare_exchange_data_ref_count(&mut self, current: usize, new: usize) -> (outcome:
        Result<usize, usize>)
        ensures
            old(self)@.strong == current ==> outcome == Ok::<usize, usize>(current) && final(self)@
                == (Block { strong: new as nat, ..old(self)@ }),
            old(self)@.strong != current ==> outcome == Err::<usize, usize>(
                old(self)@.strong as usize,
            ) && final(self)@ == old(self)@,
    {
        let previous: usize = self.data_ref_count;
        if previous == current {
            self.data_ref_count = new;
            Ok(previous)
        } else {
            Err(previous)
        }
    }

    /// Whether the block still holds its value.
    pub(crate) fn is_populated(&self) -> (b: bool)
        ensures
            b == (self@.slot is Some),
    {
        self.data.is_some()
    }

    /// Destroys the value.
    pub(crate) fn clear(&mut self)
        ensures
            final(self)@ == old(self)@.cleared(),
    {
        self.data = None;
    }

    /// The value, for reading.
    pub(crate) fn data(&self) -> (value: &T)
        requires
            self@.slot is Some,
        ensures
            Some(*value) == self@.slot,
    {
        self.data.as_ref().unwrap()
    }

    /// The value, for writing.
    pub(crate) fn data_mut(&mut self) -> (value: &mut T)
        requires
            old(self)@.slot is Some,
        ensures
            Some(*value) == old(self)@.slot,
            final(self)@ == old(self)@.holding(*final(value)),
    {
        self.data.as_mut().unwrap()
    }
}

} // verus!
