//! A bump allocator with a small footprint, for programs that run on one
//! thread over a linear memory which grows in pages of 64 KiB.
//!
//! The allocator keeps a cursor into the memory that a page source has
//! granted. A request is served at the cursor where it fits; where it does not,
//! the page source is asked for the pages that hold it, and it is served at
//! their base. Memory that was handed out is never taken back.
//!
//! - [`layout`]: a request, that is a size and an alignment, and its padded size;
//! - [`pages`]: pages, and the sources that grant them;
//! - [`heap`]: the state of an allocator as contracts see it, what a request
//!   makes of it, and what follows for any sequence of requests;
//! - [`bump`]: the allocator itself.

pub mod bump;
pub mod heap;
pub mod layout;
pub mod pages;

pub use bump::{BumpAllocator, InnerAlloc, NULL};
pub use layout::Layout;
pub use pages::{required_pages, PageSource, Recorded, SimulatedPages, PAGE_SIZE};
