use vstd::prelude::*;
use vstd::arithmetic::power2::is_pow2;
use crate::allocator::util::checked_align_up;

verus! {

/// An allocator that hands out memory from a region front to back and never
/// takes any back.
pub struct Allocator {
    current: usize,
    end: usize,
}

impl Allocator {
    /// The address from which the next block is taken.
    pub closed spec fn current(&self) -> usize {
        self.current
    }

    /// The address at which the region ends.
    pub closed spec fn end(&self) -> usize {
        self.end
    }

    /// The address at which a block of `size` bytes aligned to `align` is
    /// placed, if the region has room for it: the first multiple of `align`
    /// at or above the current address, provided the block ends inside the
    /// region.
    pub open spec fn place(&self, size: usize, align: usize) -> Option<usize> {
        let start = if self.current() % align == 0 {
            self.current() as int
        } else {
            self.current() - self.current() % align + align
        };
        if start + size <= self.end() {
            Some(start as usize)
        } else {
            None
        }
    }

    /// An allocator for the region from `start` up to, but not including,
    /// `end`.
    pub fn new(start: usize, end: usize) -> (allocator: Allocator)
        ensures
            allocator.current() == start,
            allocator.end() == end,
    {
        Allocator { current: start, end }
    }

    /// Allocates `size` bytes aligned to `align`, which must be a power of
    /// two.
    ///
    /// Returns the address of the block, or `None` when the region is
    /// exhausted, in which case nothing changes. A block lies inside the
    /// region, starts at a multiple of `align`, and starts where or after
    /// every earlier block ends.
    pub fn allocate(&mut self, size: usize, align: usize) -> (block: Option<usize>)
        requires
            is_pow2(align as int),
        ensures
            block == old(self).place(size, align),
            final(self).end() == old(self).end(),
            match block {
                Some(addr) => {
                    &&& addr % align == 0
                    &&& old(self).current() <= addr
                    &&& addr + size <= old(self).end()
                    &&& final(self).current() == addr + size
                },
                None => final(self).current() == old(self).current(),
            },
    {
        let start = match checked_align_up(self.current, align) {
            Some(start) => start,
            None => {
                return None;
            },
        };
        if start > self.end || size > self.end - start {
            return None;
        }
        self.current = start + size;
        Some(start)
    }

    /// Gives a block back. The memory is not used again.
    pub fn deallocate(&mut self, addr: usize, size: usize, align: usize)
        ensures
            *final(self) == *old(self),
    {
    }
}

} // verus!
