//! The store in which control blocks live.
//!
//! A block is found by its address, which it keeps for as long as it is
//! allocated. An address is never given out twice.
use crate::block::{ArcData, Block};
use vstd::prelude::*;

verus! {

/// A store of control blocks, each at an address of its own.
pub struct Heap<T> {
    blocks: Vec<Option<ArcData<T>>>,
}

impl<T> View for Heap<T> {
    type V = Seq<Option<Block<T>>>;

    /// For every address given out so far, the block that lies there, or
    /// `None` once it has been freed.
    closed spec fn view(&self) -> Seq<Option<Block<T>>> {
        Seq::new(
            self.blocks@.len(),
            |ptr: int|
                match self.blocks@[ptr] {
                    Some(block) => Some(block@),
                    None => None,
                },
        )
    }
}

impl<T> Heap<T> {
    /// A block lies at `ptr`.
    pub open spec fn allocated(&self, ptr: usize) -> bool {
        ptr < self@.len() && self@[ptr as int] is Some
    }

    /// The block at `ptr`.
    pub open spec fn block(&self, ptr: usize) -> Block<T>
        recommends
            self.allocated(ptr),
    {
        self@[ptr as int]->0
    }

    /// Every block in the store is at rest.
    pub open spec fn wf(&self) -> bool {
        forall|ptr: int|
            0 <= ptr < self@.len() ==> ((#[trigger] self@[ptr]) matches Some(block)
                ==> block.at_rest())
    }

    /// This store with `block` at `ptr`, or with nothing there.
    pub open spec fn with(&self, ptr: usize, block: Option<Block<T>>) -> Seq<Option<Block<T>>>
        recommends
            ptr < self@.len(),
    {
        self@.update(ptr as int, block)
    }

    /// An empty store.
    pub fn new() -> (heap: Self)
        ensures
            heap@ == Seq::<Option<Block<T>>>::empty(),
            heap.wf(),
    {
        let heap = Heap { blocks: Vec::new() };
        assert(heap@ =~= Seq::<Option<Block<T>>>::empty());
        heap
    }

    /// The number of addresses given out so far.
    pub fn len(&self) -> (n: usize)
        ensures
            n == self@.len(),
    {
        self.blocks.len()
    }

    /// Whether a block lies at `ptr`.
    pub fn is_allocated(&self, ptr: usize) -> (b: bool)
        ensures
            b == self.allocated(ptr),
    {
        ptr < self.blocks.len() && self.blocks[ptr].is_some()
    }

    /// The strong count of the block at `ptr`, or `None` if no block lies
    /// there.
    pub fn strong_count(&self, ptr: usize) -> (n: Option<usize>)
        ensures
            self.allocated(ptr) ==> n == Some(self.block(ptr).strong as usize),
            !self.allocated(ptr) ==> n is None,
    {
        if ptr < self.blocks.len() {
            match &self.blocks[ptr] {
                Some(block) => {
                    proof {
                        block.lemma_counters_bounded();
                    }
                    Some(block.load_data_ref_count())
                },
                None => None,
            }
        } else {
            None
        }
    }

    /// The count of handles of either kind of the block at `ptr`, or `None` if
    /// no block lies there.
    pub fn total_count(&self, ptr: usize) -> (n: Option<usize>)
        ensures
            self.allocated(ptr) ==> n == Some(self.block(ptr).total as usize),
            !self.allocated(ptr) ==> n is None,
    {
        if ptr < self.blocks.len() {
            match &self.blocks[ptr] {
                Some(block) => {
                    proof {
                        block.lemma_counters_bounded();
                    }
                    Some(block.load_alloc_ref_count())
                },
                None => None,
            }
        } else {
            None
        }
    }

    /// Whether the block at `ptr` still holds its value.
    pub fn is_populated(&self, ptr: usize) -> (b: bool)
        ensures
            b == (self.allocated(ptr) && self.block(ptr).slot is Some),
    {
        if ptr < self.blocks.len() {
            match &self.blocks[ptr] {
                Some(block) => block.is_populated(),
                None => false,
            }
        } else {
            false
        }
    }

    /// Both counters of an allocated block fit a machine word.
    pub proof fn lemma_counters_bounded(&self, ptr: usize)
        requires
            self.allocated(ptr),
        ensures
            self.block(ptr).strong <= usize::MAX,
            self.block(ptr).total <= usize::MAX,
    {
        self.blocks@[ptr as int]->0.lemma_counters_bounded();
    }

    /// Puts a fresh block for `data` into the store and returns its address.
    pub(crate) fn allocate(&mut self, data: T) -> (ptr: usize)
        ensures
            ptr == old(self)@.len(),
            final(self)@ == old(self)@.push(Some(Block::initial(data))),
    {
        let ptr: usize = self.blocks.len();
        self.blocks.push(Some(ArcData::new(data)));
        assert(self@ =~= old(self)@.push(Some(Block::initial(data))));
        ptr
    }

    /// Takes the block at `ptr` out of the store.
    pub(crate) fn free(&mut self, ptr: usize)
        requires
            old(self).allocated(ptr),
        ensures
            final(self)@ == old(self).with(ptr, None),
    {
        self.blocks[ptr] = None;
        assert(self@ =~= old(self).with(ptr, None));
    }

    /// The block at `ptr`, for reading.
    pub(crate) fn at(&self, ptr: usize) -> (block: &ArcData<T>)
        requires
            self.allocated(ptr),
        ensures
            block@ == self.block(ptr),
    {
        self.blocks[ptr].as_ref().unwrap()
    }

    /// The block at `ptr`, for one step on it.
    pub(crate) fn at_mut(&mut self, ptr: usize) -> (block: &mut ArcData<T>)
        requires
            old(self).allocated(ptr),
        ensures
            block@ == old(self).block(ptr),
            final(self)@ =~= old(self).with(ptr, Some(final(block)@)),
    {
        self.blocks[ptr].as_mut().unwrap()
    }
}

} // verus!
