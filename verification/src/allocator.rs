//! A model of the system MMIO address allocator.
//!
//! The PCI shell asks the allocator for the two BAR windows.  Addresses
//! are handed out from a contiguous pool, aligned as requested but never
//! finer than a page, and each grant consumes a whole number of pages,
//! so distinct grants never share a page and never overlap.

use vstd::prelude::*;

verus! {

/// Granularity of the allocator: every grant starts on a page boundary
/// and consumes whole pages.
pub const PAGE_SIZE: u64 = 0x1000;

/// Why an allocation was refused.
#[derive(Clone, Copy, Debug, PartialEq, Eq, Structural)]
pub enum AllocError {
    /// A zero-sized or zero-aligned range was asked for.
    BadRange,
    /// The pool cannot fit the range.
    OutOfSpace,
}

/// `v` rounded up to the next multiple of `align`.
pub open spec fn spec_round_up(v: int, align: int) -> int
    recommends
        align > 0,
{
    v + ((align - v % align) % align)
}

/// An allocator handing out addresses from `next` up to `end`.
pub struct MmioAllocator {
    /// The first address not yet handed out.
    pub next: u64,
    /// One past the last address of the pool.
    pub end: u64,
}

impl MmioAllocator {
    /// The pool is well formed while `next` has not passed `end`.
    pub open spec fn wf(&self) -> bool {
        self.next <= self.end
    }

    /// The effective alignment of a request: as asked, but never finer
    /// than a page.
    pub open spec fn spec_eff_align(align: u64) -> int {
        if align < PAGE_SIZE {
            PAGE_SIZE as int
        } else {
            align as int
        }
    }

    /// The address a request would be granted.
    pub open spec fn spec_alloc_start(&self, align: u64) -> int {
        spec_round_up(self.next as int, Self::spec_eff_align(align))
    }

    /// The pool cursor after a granted request: the grant consumes whole
    /// pages.
    pub open spec fn spec_alloc_next(&self, size: u64, align: u64) -> int {
        self.spec_alloc_start(align) + spec_round_up(size as int, PAGE_SIZE as int)
    }

    /// Whether a request is granted: it must name a real range and fit
    /// in what is left of the pool.
    pub open spec fn spec_alloc_ok(&self, size: u64, align: u64) -> bool {
        &&& size > 0
        &&& align > 0
        &&& self.spec_alloc_next(size, align) <= self.end
    }

    /// Creates an allocator over `size` bytes starting at `base`.
    pub fn new(base: u64, size: u64) -> (r: MmioAllocator)
        requires
            base + size <= u64::MAX,
        ensures
            r.next == base,
            r.end == base + size,
            r.wf(),
    {
        MmioAllocator { next: base, end: base + size }
    }

    /// Allocates `size` bytes aligned to `align` (never finer than a
    /// page); returns the granted address, which never overlaps an
    /// earlier grant.  Refuses a zero size or alignment, or a range the
    /// pool cannot fit, leaving the pool unchanged.
    pub fn allocate_with_align(&mut self, size: u64, align: u64) -> (r: Result<u64, AllocError>)
        requires
            old(self).wf(),
        ensures
            final(self).wf(),
            final(self).end == old(self).end,
            (size == 0 || align == 0) ==> r == Err::<u64, AllocError>(AllocError::BadRange)
                && *final(self) == *old(self),
            size > 0 && align > 0 && !old(self).spec_alloc_ok(size, align) ==> r == Err::<
                u64,
                AllocError,
            >(AllocError::OutOfSpace) && *final(self) == *old(self),
            old(self).spec_alloc_ok(size, align) ==> ({
                &&& r == Ok::<u64, AllocError>(old(self).spec_alloc_start(align) as u64)
                &&& final(self).next == old(self).spec_alloc_next(size, align)
                &&& old(self).spec_alloc_start(align) % (MmioAllocator::spec_eff_align(align))
                    == 0
                &&& old(self).next <= old(self).spec_alloc_start(align)
            }),
    {
        if size == 0 || align == 0 {
            return Err(AllocError::BadRange);
        }
        let eff_align: u64 = if align < PAGE_SIZE {
            PAGE_SIZE
        } else {
            align
        };
        let pad: u64 = (eff_align - self.next % eff_align) % eff_align;
        if pad > self.end - self.next {
            return Err(AllocError::OutOfSpace);
        }
        let start: u64 = self.next + pad;
        proof {
            assert(start as int % (eff_align as int) == 0) by (nonlinear_arith)
                requires
                    eff_align > 0,
                    pad as int == ((eff_align as int) - (self.next as int) % (eff_align as int))
                        % (eff_align as int),
                    start as int == self.next as int + pad as int,
            ;
        }
        let size_rem: u64 = (PAGE_SIZE - size % PAGE_SIZE) % PAGE_SIZE;
        if size > self.end - start || size_rem > self.end - start - size {
            return Err(AllocError::OutOfSpace);
        }
        self.next = start + size + size_rem;
        Ok(start)
    }
}

} // verus!
