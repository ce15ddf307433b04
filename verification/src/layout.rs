//! Allocation requests: a size in bytes and an alignment.

use vstd::prelude::*;
use vstd::arithmetic::power2::is_pow2;
use vstd::layout::{align_of, layout_for_type_is_valid, size_of};

verus! {

/// `size` rounded up to the next multiple of `align`.
pub open spec fn round_up(size: nat, align: nat) -> nat
    recommends
        align > 0,
{
    if size % align == 0 {
        size
    } else {
        (size + align - size % align) as nat
    }
}

/// `round_up(size, align)` is the one multiple of `align` in the range from
/// `size` up to, but not including, `size + align`: the least multiple of
/// `align` that is not below `size`.
pub proof fn lemma_round_up_is_least_multiple(size: nat, align: nat)
    requires
        align > 0,
    ensures
        round_up(size, align) % align == 0,
        size <= round_up(size, align) < size + align,
{
    let rem = size % align;
    if rem != 0 {
        assert((size + align - rem) % (align as int) == 0) by (nonlinear_arith)
            requires
                rem == size % align,
                align > 0,
        ;
    }
}

/// A power of two is positive.
pub proof fn lemma_pow2_is_positive(n: int)
    requires
        is_pow2(n),
    ensures
        n > 0,
{
    reveal(is_pow2);
}

/// Whether `n` is a power of two.
fn is_power_of_two(n: usize) -> (yes: bool)
    ensures
        yes == is_pow2(n as int),
{
    if n == 0 {
        proof {
            reveal(is_pow2);
        }
        return false;
    }
    let mut m: usize = n;
    while m % 2 == 0
        invariant
            m > 0,
            is_pow2(m as int) == is_pow2(n as int),
        decreases m,
    {
        proof {
            reveal(is_pow2);
        }
        m = m / 2;
    }
    proof {
        reveal(is_pow2);
    }
    m == 1
}

/// A request for memory: `size` bytes at an address that is a multiple of
/// `align`, where `align` is a power of two.
#[derive(Clone, Copy, Debug)]
pub struct Layout {
    size: usize,
    align: usize,
}

impl Layout {
    #[verifier::type_invariant]
    spec fn inv(self) -> bool {
        is_pow2(self.align as int)
    }

    /// The number of bytes asked for.
    pub closed spec fn spec_size(&self) -> usize {
        self.size
    }

    /// The alignment asked for.
    pub closed spec fn spec_align(&self) -> usize {
        self.align
    }

    /// The alignment is a power of two.
    pub open spec fn wf(&self) -> bool {
        is_pow2(self.align() as int)
    }

    /// The padded size of the request: its size rounded up to the next
    /// multiple of its alignment.
    pub open spec fn spec_padded_size(&self) -> nat {
        round_up(self.size() as nat, self.align() as nat)
    }

    /// The layout of `size` bytes aligned to `align`, if `align` is a power of
    /// two.
    pub fn from_size_align(size: usize, align: usize) -> (layout: Option<Layout>)
        ensures
            layout is Some <==> is_pow2(align as int),
            layout matches Some(l) ==> l.size() == size && l.align() == align,
    {
        if is_power_of_two(align) {
            Some(Layout { size, align })
        } else {
            None
        }
    }

    /// The layout of a value of type `T`.
    pub fn new<T>() -> (layout: Layout)
        ensures
            layout.size() == size_of::<T>(),
            layout.align() == align_of::<T>(),
            layout.spec_padded_size() == size_of::<T>(),
            layout.wf(),
    {
        layout_for_type_is_valid::<T>();
        Layout { size: core::mem::size_of::<T>(), align: core::mem::align_of::<T>() }
    }

    /// The number of bytes asked for.
    #[verifier::when_used_as_spec(spec_size)]
    pub fn size(&self) -> (size: usize)
        ensures
            size == self.size(),
    {
        self.size
    }

    /// The alignment asked for, a power of two.
    #[verifier::when_used_as_spec(spec_align)]
    pub fn align(&self) -> (align: usize)
        ensures
            align == self.align(),
            self.wf(),
    {
        proof {
            use_type_invariant(self);
        }
        self.align
    }

    /// The padded size of the request, or `None` when it leaves the address
    /// space.
    pub fn padded_size(&self) -> (padded: Option<usize>)
        ensures
            self.spec_padded_size() <= usize::MAX ==> padded == Some(
                self.spec_padded_size() as usize,
            ),
            self.spec_padded_size() > usize::MAX ==> padded is None,
    {
        proof {
            use_type_invariant(self);
            lemma_pow2_is_positive(self.align as int);
        }
        let rem = self.size % self.align;
        if rem == 0 {
            Some(self.size)
        } else {
            self.size.checked_add(self.align - rem)
        }
    }
}

} // verus!
