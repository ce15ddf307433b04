//! The mathematical model of the allocator: what a request does to a heap.

use vstd::prelude::*;
use crate::layout::Layout;
use crate::pages::{pages_for, PAGE_SIZE};

verus! {

/// The state of an allocator, as its contracts see it.
pub struct Heap {
    /// The address of the first byte that is free for the next request.
    pub next: nat,
    /// The address one past the last byte of the memory granted so far.
    pub upper_limit: nat,
}

/// What a request needs from a heap.
pub enum Demand {
    /// An address that the request needs lies beyond the address space.
    Overflow,
    /// The `size` padded bytes fit between the cursor and the upper limit.
    Fits { size: nat },
    /// The `size` padded bytes do not fit, and `pages` fresh pages hold them.
    Grows { size: nat, pages: nat },
}

/// How a request ended.
pub struct Outcome {
    /// The state that the request left.
    pub heap: Heap,
    /// The address where the memory handed out starts, or `None` where the
    /// request failed.
    pub start: Option<usize>,
}

/// The heap in which `size` bytes lie at the base of a run of `pages` fresh
/// pages that starts at `page_start`; `None` when the end of the bytes or the
/// end of the pages is beyond the address space.
pub open spec fn placed(page_start: nat, pages: nat, size: nat) -> Option<Heap> {
    if page_start + pages * PAGE_SIZE <= usize::MAX && page_start + size <= usize::MAX {
        Some(
            Heap {
                next: page_start + size,
                upper_limit: (page_start + pages * PAGE_SIZE) as nat,
            },
        )
    } else {
        None
    }
}

impl Heap {
    /// The cursor is not beyond the upper limit, and the upper limit is an
    /// address.
    pub open spec fn wf(self) -> bool {
        self.next <= self.upper_limit <= usize::MAX
    }

    /// The heap of an allocator that has been granted nothing yet.
    pub open spec fn fresh() -> Heap {
        Heap { next: 0, upper_limit: 0 }
    }

    /// What a request for `layout` needs from this heap.
    pub open spec fn demand(self, layout: Layout) -> Demand {
        let size = layout.spec_padded_size();
        if self.next + size > usize::MAX {
            Demand::Overflow
        } else if self.next + size <= self.upper_limit {
            Demand::Fits { size }
        } else if size + PAGE_SIZE - 1 > usize::MAX {
            Demand::Overflow
        } else {
            Demand::Grows { size, pages: pages_for(size) }
        }
    }

    /// This heap after `size` bytes were taken at the cursor.
    pub open spec fn bumped(self, size: nat) -> Heap {
        Heap { next: self.next + size, ..self }
    }

    /// What a request for `layout` makes of this heap, and the address that it
    /// returns. `grant` is the answer of the page source, which counts only
    /// where the request needs pages. A request that fits is served at the
    /// cursor. A request that needs pages is served at the base of the run
    /// that was granted, and what was left below that run is given up. A
    /// request that is not served leaves the heap as it was.
    pub open spec fn outcome(self, layout: Layout, grant: Option<usize>) -> Outcome {
        match self.demand(layout) {
            Demand::Overflow => self.failed(),
            Demand::Fits { size } => Outcome {
                heap: self.bumped(size),
                start: Some(self.next as usize),
            },
            Demand::Grows { size, pages } => match grant {
                None => self.failed(),
                Some(page_start) => match placed(page_start as nat, pages, size) {
                    Some(heap) => Outcome { heap, start: Some(page_start) },
                    None => self.failed(),
                },
            },
        }
    }

    /// The outcome of a request that failed: the heap is as it was.
    pub open spec fn failed(self) -> Outcome {
        Outcome { heap: self, start: None }
    }
}

/// A request keeps a heap well formed. The bytes that it returns end at the
/// new cursor, which is an address, and a request that is not served leaves the
/// heap as it was. This holds whatever the page source answers.
pub proof fn lemma_outcome_is_well_formed(pre: Heap, layout: Layout, grant: Option<usize>)
    requires
        pre.wf(),
    ensures
        pre.outcome(layout, grant).heap.wf(),
        pre.outcome(layout, grant).start matches Some(address) ==> address
            + layout.spec_padded_size() == pre.outcome(layout, grant).heap.next,
        pre.outcome(layout, grant).start is None ==> pre.outcome(layout, grant).heap == pre,
{
}

/// A request that fits the headroom is served at the cursor and moves the
/// cursor by exactly its padded size; it needs no pages, so the answer of the
/// page source does not count, and the upper limit stays.
pub proof fn lemma_fitting_request_bumps(pre: Heap, layout: Layout, grant: Option<usize>)
    requires
        pre.wf(),
        layout.spec_padded_size() <= pre.upper_limit - pre.next,
    ensures
        pre.demand(layout) is Fits,
        pre.outcome(layout, grant) == (Outcome {
            heap: Heap {
                next: pre.next + layout.spec_padded_size(),
                upper_limit: pre.upper_limit,
            },
            start: Some(pre.next as usize),
        }),
{
}

/// A request that does not fit the headroom, and is served, lies at the base
/// of the run of pages granted for it, and the upper limit becomes the end of
/// that run, which is made of just the pages that hold the padded size: at
/// least one. Where the run starts at the old upper limit, the upper limit
/// grows by exactly these pages. Where the run starts at or after the old upper
/// limit, the request lies at the old cursor only if the run starts at the old
/// upper limit and no headroom was left.
pub proof fn lemma_growing_request_starts_on_new_pages(
    pre: Heap,
    layout: Layout,
    grant: Option<usize>,
)
    requires
        pre.wf(),
        layout.spec_padded_size() > pre.upper_limit - pre.next,
        pre.outcome(layout, grant).start is Some,
    ensures
        pre.demand(layout) is Grows,
        pages_for(layout.spec_padded_size()) >= 1,
        pre.outcome(layout, grant).start == grant,
        pre.outcome(layout, grant).heap.next == grant->0 + layout.spec_padded_size(),
        pre.outcome(layout, grant).heap.upper_limit == grant->0 + pages_for(
            layout.spec_padded_size(),
        ) * PAGE_SIZE,
        grant->0 == pre.upper_limit ==> pre.outcome(layout, grant).heap.upper_limit
            == pre.upper_limit + pages_for(layout.spec_padded_size()) * PAGE_SIZE,
        grant->0 >= pre.upper_limit ==> (grant->0 == pre.next <==> grant->0 == pre.upper_limit
            && pre.next == pre.upper_limit),
{
}

/// A request is not served, and leaves the heap as it was, whenever an address
/// that serving it would need lies beyond the address space: the end of its
/// bytes at the cursor, its padded size with the slack for rounding to pages,
/// or the end of the pages granted for it.
pub proof fn lemma_overflow_fails(pre: Heap, layout: Layout, grant: Option<usize>)
    requires
        pre.wf(),
        ({
            ||| pre.next + layout.spec_padded_size() > usize::MAX
            ||| layout.spec_padded_size() > pre.upper_limit - pre.next && layout.spec_padded_size()
                + PAGE_SIZE - 1 > usize::MAX
            ||| layout.spec_padded_size() > pre.upper_limit - pre.next && grant is Some && grant->0
                + pages_for(layout.spec_padded_size()) * PAGE_SIZE > usize::MAX
        }),
    ensures
        pre.outcome(layout, grant) == pre.failed(),
{
}

/// Whether the sequences tell of requests made one after the other on one
/// allocator. Request `k` asked for `layouts[k]`, took the heap from `heaps[k]`
/// to `heaps[k + 1]` and returned `starts[k]`, and `grants[k]` is what the page
/// source answered, or would have answered, to it. The page source keeps to
/// its part: a run of pages that it grants starts at or after the upper limit,
/// that is after all the memory granted before.
pub open spec fn is_history(
    heaps: Seq<Heap>,
    layouts: Seq<Layout>,
    grants: Seq<Option<usize>>,
    starts: Seq<Option<usize>>,
) -> bool {
    &&& heaps.len() == layouts.len() + 1
    &&& grants.len() == layouts.len()
    &&& starts.len() == layouts.len()
    &&& heaps[0].wf()
    &&& forall|k: int|
        #![trigger layouts[k]]
        0 <= k < layouts.len() ==> {
            &&& heaps[k].outcome(layouts[k], grants[k]) == (Outcome {
                heap: heaps[k + 1],
                start: starts[k],
            })
            &&& grants[k] matches Some(page_start) ==> page_start >= heaps[k].upper_limit
        }
}

/// Along a history every heap is well formed, and neither the cursor nor the
/// upper limit ever moves backwards.
pub proof fn lemma_history_moves_forward(
    heaps: Seq<Heap>,
    layouts: Seq<Layout>,
    grants: Seq<Option<usize>>,
    starts: Seq<Option<usize>>,
    i: int,
    j: int,
)
    requires
        is_history(heaps, layouts, grants, starts),
        0 <= i <= j < heaps.len(),
    ensures
        heaps[i].wf(),
        heaps[j].wf(),
        heaps[i].next <= heaps[j].next,
        heaps[i].upper_limit <= heaps[j].upper_limit,
    decreases j,
{
    if j > 0 {
        let before = j - 1;
        let from = if i == j {
            before
        } else {
            i
        };
        lemma_history_moves_forward(heaps, layouts, grants, starts, from, before);
        assert(heaps[before].outcome(layouts[before], grants[before]).heap == heaps[before + 1]);
        lemma_outcome_is_well_formed(heaps[before], layouts[before], grants[before]);
    }
}

/// Of two served requests of one history, the bytes of the earlier one end at
/// or before the start of the later one: the two do not overlap, and start
/// addresses never decrease. The later one starts at a strictly higher address
/// where the earlier one has bytes. The two start at the same address only
/// where the earlier one has no bytes, the cursor did not move between them,
/// and the later one lies at the cursor.
pub proof fn lemma_served_requests_do_not_overlap(
    heaps: Seq<Heap>,
    layouts: Seq<Layout>,
    grants: Seq<Option<usize>>,
    starts: Seq<Option<usize>>,
    i: int,
    j: int,
)
    requires
        is_history(heaps, layouts, grants, starts),
        0 <= i < j < starts.len(),
        starts[i] is Some,
        starts[j] is Some,
    ensures
        starts[i]->0 + layouts[i].spec_padded_size() <= starts[j]->0,
        layouts[i].spec_padded_size() > 0 ==> starts[i]->0 < starts[j]->0,
        starts[i]->0 == starts[j]->0 <==> {
            &&& layouts[i].spec_padded_size() == 0
            &&& heaps[i + 1].next == heaps[j].next
            &&& starts[j]->0 == heaps[j].next
        },
{
    lemma_history_moves_forward(heaps, layouts, grants, starts, i, i);
    lemma_history_moves_forward(heaps, layouts, grants, starts, i + 1, j);
    assert(heaps[i].outcome(layouts[i], grants[i]).start == starts[i]);
    assert(heaps[j].outcome(layouts[j], grants[j]).start == starts[j]);
    lemma_outcome_is_well_formed(heaps[i], layouts[i], grants[i]);
}

} // verus!
