//! The bump allocator: a cursor that only moves forward through the memory
//! that a page source grants. Memory that was handed out is never taken back.

use vstd::prelude::*;
use crate::heap::{placed, Demand, Heap, Outcome};
use crate::layout::Layout;
use crate::pages::{required_pages, PageRequest, PageSource, Recorded, PAGE_SIZE};

verus! {

/// The address that stands for a failed allocation.
pub const NULL: usize = 0;

/// Where `size` bytes lie at the base of a run of `pages` fresh pages that
/// starts at `page_start`: the cursor behind the bytes and the upper limit
/// behind the pages, or `None` when one of the two is beyond the address space.
pub fn place(page_start: usize, pages: usize, size: usize) -> (cursor: Option<(usize, usize)>)
    ensures
        match placed(page_start as nat, pages as nat, size as nat) {
            Some(heap) => cursor == Some((heap.next as usize, heap.upper_limit as usize)),
            None => cursor is None,
        },
{
    let bytes = match pages.checked_mul(PAGE_SIZE) {
        Some(bytes) => bytes,
        None => return None,
    };
    let upper_limit = match page_start.checked_add(bytes) {
        Some(upper_limit) => upper_limit,
        None => return None,
    };
    let next = match page_start.checked_add(size) {
        Some(next) => next,
        None => return None,
    };
    Some((next, upper_limit))
}

/// Whether the page source went from `before` to `after` as a request with
/// the demand `demand` asks: it was asked once, for the pages that the request
/// needs, or else it was left alone.
pub open spec fn asked_as_needed<P: PageSource>(
    demand: Demand,
    before: Recorded<P>,
    after: Recorded<P>,
) -> bool {
    match demand {
        Demand::Grows { pages, .. } => after.requests() == before.requests().push(
            PageRequest { pages: pages as usize, answer: before.answer_in(after) },
        ),
        _ => after == before,
    }
}

/// The state of the allocator: the cursor and the upper limit of the memory
/// that it may hand out. The cursor is never beyond the upper limit.
#[derive(Clone, Copy, Debug)]
pub struct InnerAlloc {
    /// Points to the start of the next available allocation.
    next: usize,
    /// The address of the upper limit of the heap.
    upper_limit: usize,
}

impl View for InnerAlloc {
    type V = Heap;

    closed spec fn view(&self) -> Heap {
        Heap { next: self.next as nat, upper_limit: self.upper_limit as nat }
    }
}

impl InnerAlloc {
    #[verifier::type_invariant]
    spec fn inv(&self) -> bool {
        self.next <= self.upper_limit
    }

    /// An allocator that has been granted nothing yet.
    pub fn new() -> (inner: Self)
        ensures
            inner@ == Heap::fresh(),
    {
        InnerAlloc { next: 0, upper_limit: 0 }
    }

    /// The address of the first byte that is free for the next request.
    pub fn next(&self) -> (next: usize)
        ensures
            next == self@.next,
            self@.wf(),
    {
        proof {
            use_type_invariant(self);
        }
        self.next
    }

    /// The address one past the last byte of the memory granted so far.
    pub fn upper_limit(&self) -> (upper_limit: usize)
        ensures
            upper_limit == self@.upper_limit,
            self@.wf(),
    {
        proof {
            use_type_invariant(self);
        }
        self.upper_limit
    }

    /// Tries to allocate memory for `layout` and returns the address where it
    /// starts. A request that fits between the cursor and the upper limit is
    /// served there, and `pages` is not asked. For any other, `pages` is asked
    /// once, for the pages that hold the padded size; the request is served at
    /// the base of the new pages, and what was left below them is given up.
    /// The allocation fails when an address in this leaves the address space,
    /// or when `pages` grants nothing; the state then stays as it was.
    pub fn allocate<P: PageSource>(&mut self, layout: Layout, pages: &mut Recorded<P>) -> (start:
        Option<usize>)
        ensures
            old(self)@.wf(),
            final(self)@.wf(),
            asked_as_needed(old(self)@.demand(layout), *old(pages), *final(pages)),
            old(self)@.outcome(layout, old(pages).answer_in(*final(pages))) == (Outcome {
                heap: final(self)@,
                start,
            }),
    {
        proof {
            use_type_invariant(&*self);
        }
        let alloc_start = self.next;
        let aligned_size = match layout.padded_size() {
            Some(aligned_size) => aligned_size,
            None => return None,
        };
        let alloc_end = match alloc_start.checked_add(aligned_size) {
            Some(alloc_end) => alloc_end,
            None => return None,
        };
        if alloc_end > self.upper_limit {
            let required_pages = match required_pages(aligned_size) {
                Some(required_pages) => required_pages,
                None => return None,
            };
            let page_start = match pages.request_pages(required_pages) {
                Some(page_start) => page_start,
                None => return None,
            };
            match place(page_start, required_pages, aligned_size) {
                Some((next, upper_limit)) => {
                    *self = InnerAlloc { next, upper_limit };
                    Some(page_start)
                },
                None => None,
            }
        } else {
            self.next = alloc_end;
            Some(alloc_start)
        }
    }
}

/// The address that an allocator returns for the outcome `start`.
pub open spec fn address_of(start: Option<usize>) -> usize {
    match start {
        Some(address) => address,
        None => NULL,
    }
}

/// A bump allocator over the page source `P`: it hands out addresses, with
/// `NULL` for a failed allocation, and takes nothing back.
pub struct BumpAllocator<P> {
    inner: InnerAlloc,
    pages: Recorded<P>,
}

impl<P: PageSource> View for BumpAllocator<P> {
    type V = Heap;

    closed spec fn view(&self) -> Heap {
        self.inner@
    }
}

impl<P: PageSource> BumpAllocator<P> {
    /// The page source of this allocator, with the record of its answers.
    pub closed spec fn pages(&self) -> Recorded<P> {
        self.pages
    }

    /// The outcome of the request for `layout` that took this allocator to
    /// `after`.
    pub open spec fn outcome_of(&self, layout: Layout, after: Self) -> Outcome {
        self@.outcome(layout, self.pages().answer_in(after.pages()))
    }

    /// An allocator that has been granted nothing yet and grows from `pages`.
    pub fn new(pages: P) -> (allocator: Self)
        ensures
            allocator@ == Heap::fresh(),
            allocator.pages().source() == pages,
            allocator.pages().requests() == Seq::<PageRequest>::empty(),
    {
        BumpAllocator { inner: InnerAlloc::new(), pages: Recorded::new(pages) }
    }

    /// The state of this allocator.
    pub fn inner(&self) -> (inner: &InnerAlloc)
        ensures
            inner@ == self@,
    {
        &self.inner
    }

    /// The page source of this allocator.
    pub fn page_source(&self) -> (pages: &P)
        ensures
            pages == self.pages().source(),
    {
        self.pages.source()
    }

    /// Allocates memory for `layout` as `InnerAlloc::allocate` does, and
    /// returns its address, or `NULL` when the allocation fails.
    pub fn allocate(&mut self, layout: Layout) -> (address: usize)
        ensures
            old(self)@.wf(),
            final(self)@.wf(),
            asked_as_needed(old(self)@.demand(layout), old(self).pages(), final(self).pages()),
            final(self)@ == old(self).outcome_of(layout, *final(self)).heap,
            address == address_of(old(self).outcome_of(layout, *final(self)).start),
    {
        match self.inner.allocate(layout, &mut self.pages) {
            Some(start) => start,
            None => NULL,
        }
    }

    /// Allocates memory for `layout` that holds zeroes. Fresh pages hold zeroes
    /// and no byte is handed out twice, so this is `allocate`.
    pub fn alloc_zeroed(&mut self, layout: Layout) -> (address: usize)
        ensures
            old(self)@.wf(),
            final(self)@.wf(),
            asked_as_needed(old(self)@.demand(layout), old(self).pages(), final(self).pages()),
            final(self)@ == old(self).outcome_of(layout, *final(self)).heap,
            address == address_of(old(self).outcome_of(layout, *final(self)).start),
    {
        self.allocate(layout)
    }

    /// Takes back nothing: memory that was handed out stays handed out.
    pub fn dealloc(&self, _address: usize, _layout: Layout) {
    }
}

} // verus!
