//! Pages: the unit in which the heap grows.

use vstd::prelude::*;

verus! {

/// The size of one page of linear memory, in bytes (64 KiB).
pub const PAGE_SIZE: usize = 65536;

/// The number of whole pages that hold `size` bytes: the least `n` with
/// `n * PAGE_SIZE >= size`.
pub open spec fn pages_for(size: nat) -> nat {
    ((size + PAGE_SIZE - 1) / (PAGE_SIZE as int)) as nat
}

/// `pages_for(size)` is the least number of pages that hold `size` bytes.
pub proof fn lemma_pages_for_is_least(size: nat)
    ensures
        pages_for(size) * PAGE_SIZE >= size,
        size > 0 ==> (pages_for(size) - 1) * PAGE_SIZE < size,
        size == 0 ==> pages_for(size) == 0,
{
}

/// The number of pages needed for `size` bytes, or `None` when `size` plus the
/// rounding slack of `PAGE_SIZE - 1` bytes leaves the address space.
pub fn required_pages(size: usize) -> (pages: Option<usize>)
    ensures
        size + PAGE_SIZE - 1 <= usize::MAX ==> pages == Some(pages_for(size as nat) as usize),
        size + PAGE_SIZE - 1 > usize::MAX ==> pages is None,
        pages matches Some(n) ==> n * PAGE_SIZE >= size && (size > 0 ==> (n - 1) * PAGE_SIZE < size),
{
    match size.checked_add(PAGE_SIZE - 1) {
        Some(num) => num.checked_div(PAGE_SIZE),
        None => None,
    }
}

/// What the growth primitive of a host returns when its linear memory did not
/// grow.
pub const GROWTH_FAILED: usize = usize::MAX;

/// The answer of a page source that grows the linear memory of a host.
/// `prev_page` is what the growth primitive of the host returned: the size of
/// the memory before it grew, in pages, or `GROWTH_FAILED`. The new pages start
/// where the memory ended, if that is an address.
pub fn base_of_growth(prev_page: usize) -> (base: Option<usize>)
    ensures
        prev_page != GROWTH_FAILED && prev_page * PAGE_SIZE <= usize::MAX ==> base == Some(
            (prev_page * PAGE_SIZE) as usize,
        ),
        prev_page == GROWTH_FAILED || prev_page * PAGE_SIZE > usize::MAX ==> base is None,
{
    if prev_page == GROWTH_FAILED {
        return None;
    }
    prev_page.checked_mul(PAGE_SIZE)
}

/// A provider of fresh memory: it grows the heap by whole pages. A run of new
/// pages is expected to hold zeroes and to lie right after all the memory
/// granted before it. Nothing here holds a page source to that: what is proved
/// of an allocator says where it depends on it.
pub trait PageSource {
    /// Asks for `pages` more pages, at least one. `Some` holds the base address
    /// of the new run; `None` means that no more memory can be had.
    fn request_pages(&mut self, pages: usize) -> Option<usize>
        requires
            pages >= 1,
    ;
}

/// One request to a page source: the number of pages asked for, and the answer.
pub struct PageRequest {
    /// The number of pages asked for.
    pub pages: usize,
    /// The base address of the pages granted, or `None` where none were.
    pub answer: Option<usize>,
}

/// A page source together with the record of what it was asked and what it
/// answered. The record is there for contracts to speak of; it takes no space
/// and no time.
pub struct Recorded<P> {
    source: P,
    requests: Ghost<Seq<PageRequest>>,
}

impl<P: PageSource> Recorded<P> {
    /// The requests made so far, the oldest first.
    pub closed spec fn requests(&self) -> Seq<PageRequest> {
        self.requests@
    }

    /// The page source itself.
    pub closed spec fn spec_source(&self) -> &P {
        &self.source
    }

    /// The answer to the one request made between `self` and `after`, or
    /// `None` where none was made.
    pub open spec fn answer_in(&self, after: Self) -> Option<usize> {
        if after.requests().len() > self.requests().len() {
            after.requests().last().answer
        } else {
            None
        }
    }

    /// `source`, with nothing asked of it yet.
    pub fn new(source: P) -> (recorded: Self)
        ensures
            recorded.requests() == Seq::<PageRequest>::empty(),
            recorded.source() == source,
    {
        Recorded { source, requests: Ghost(Seq::empty()) }
    }

    /// The page source itself.
    #[verifier::when_used_as_spec(spec_source)]
    pub fn source(&self) -> (source: &P)
        ensures
            source == self.source(),
    {
        &self.source
    }

    /// Asks the page source for `pages` more pages and records its answer.
    pub fn request_pages(&mut self, pages: usize) -> (answer: Option<usize>)
        requires
            pages >= 1,
        ensures
            final(self).requests() == old(self).requests().push(PageRequest { pages, answer }),
    {
        let answer = self.source.request_pages(pages);
        proof {
            self.requests@ = self.requests@.push(PageRequest { pages, answer });
        }
        answer
    }
}

/// A page source that backs its pages by no memory: it hands out the addresses
/// from zero upwards, as long as the end of a run is still an address. It
/// serves to exercise the arithmetic of an allocator.
#[derive(Clone, Copy, Debug)]
pub struct SimulatedPages {
    /// The address one past the last page handed out.
    pub high_water: usize,
}

impl SimulatedPages {
    /// A source that has handed out nothing yet.
    pub fn new() -> (source: SimulatedPages)
        ensures
            source.high_water == 0,
    {
        SimulatedPages { high_water: 0 }
    }
}

impl PageSource for SimulatedPages {
    /// Hands out the run of `pages` pages that starts at the high-water mark,
    /// unless it ends beyond the address space.
    fn request_pages(&mut self, pages: usize) -> (base: Option<usize>)
        ensures
            old(self).high_water + pages * PAGE_SIZE <= usize::MAX ==> base == Some(
                old(self).high_water,
            ) && final(self).high_water == old(self).high_water + pages * PAGE_SIZE,
            old(self).high_water + pages * PAGE_SIZE > usize::MAX ==> base is None && *final(self)
                == *old(self),
    {
        let grown = match pages.checked_mul(PAGE_SIZE) {
            Some(bytes) => self.high_water.checked_add(bytes),
            None => None,
        };
        match grown {
            Some(end) => {
                let start = self.high_water;
                self.high_water = end;
                Some(start)
            },
            None => None,
        }
    }
}

} // verus!
