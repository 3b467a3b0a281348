pub mod bin;
pub mod bump;
pub mod util;

use vstd::prelude::*;
use vstd::arithmetic::power2::is_pow2;
use crate::atags::atag::Atag;
use crate::atags::raw::Mem;

verus! {

/// Whether the record at `index` is the first memory record of `atags`.
pub open spec fn is_first_mem(atags: Seq<Atag>, index: int) -> bool {
    &&& 0 <= index < atags.len()
    &&& atags[index] is Mem
    &&& forall|before: int| 0 <= before < index ==> !(#[trigger] atags[before] is Mem)
}

/// The memory available to the allocator according to `mem`, for a kernel
/// image that ends at `binary_end`: it begins where the image ends and ends
/// at the difference of the record's size and start.
pub open spec fn memory_of(binary_end: u32, mem: Mem) -> (usize, usize) {
    (binary_end as usize, (mem.size - mem.start) as usize)
}

/// Whether `atags` has a memory record and the first one has a size that
/// is not below its start, so that it describes a stretch of memory.
pub open spec fn has_memory(atags: Seq<Atag>) -> bool {
    exists|index: int|
        is_first_mem(atags, index) && (#[trigger] atags[index])->Mem_0.size
            >= atags[index]->Mem_0.start
}

/// Returns the first memory record of `atags`, or `None` if there is none.
pub fn first_mem(atags: &[Atag]) -> (first: Option<Mem>)
    ensures
        match first {
            Some(mem) => exists|index: int|
                is_first_mem(atags@, index) && #[trigger] atags@[index] == Atag::Mem(mem),
            None => forall|index: int|
                0 <= index < atags@.len() ==> !(#[trigger] atags@[index] is Mem),
        },
{
    let mut i: usize = 0;
    while i < atags.len()
        invariant
            0 <= i <= atags@.len(),
            forall|before: int| 0 <= before < i ==> !(#[trigger] atags@[before] is Mem),
        decreases atags@.len() - i,
    {
        if let Atag::Mem(mem) = atags[i] {
            return Some(mem);
        }
        i += 1;
    }
    None
}

/// Returns the start address and the end address of the available memory:
/// the memory that the first memory record of `atags` gives for a kernel
/// image that ends at `binary_end`. Returns `None` if there is no memory
/// record.
///
/// The size of the first memory record must not be below its start.
pub fn memory_map(binary_end: u32, atags: &[Atag]) -> (map: Option<(usize, usize)>)
    requires
        forall|index: int|
            is_first_mem(atags@, index) ==> (#[trigger] atags@[index])->Mem_0.size
                >= atags@[index]->Mem_0.start,
    ensures
        match map {
            Some(region) => exists|index: int|
                is_first_mem(atags@, index) && region == memory_of(
                    binary_end,
                    (#[trigger] atags@[index])->Mem_0,
                ),
            None => forall|index: int|
                0 <= index < atags@.len() ==> !(#[trigger] atags@[index] is Mem),
        },
{
    match first_mem(atags) {
        Some(mem) => Some((binary_end as usize, (mem.size - mem.start) as usize)),
        None => None,
    }
}

/// The memory allocator of the kernel: not there until `initialize` has set
/// it up.
pub struct Allocator(Option<bump::Allocator>);

impl Allocator {
    /// The allocator behind the handle, once it has been set up.
    pub closed spec fn allocator(&self) -> Option<bump::Allocator> {
        self.0
    }

    /// Returns an uninitialized `Allocator`.
    ///
    /// The allocator must be initialized by calling `initialize()` before
    /// the first memory allocation.
    pub fn uninitialized() -> (allocator: Allocator)
        ensures
            allocator.allocator() is None,
    {
        Allocator(None)
    }

    /// Whether the allocator has been initialized.
    pub fn is_initialized(&self) -> (initialized: bool)
        ensures
            initialized == self.allocator() is Some,
    {
        self.0.is_some()
    }

    /// Initializes the memory allocator with the memory that `memory_map`
    /// finds for `binary_end` and `atags`. There must be a memory record
    /// among `atags`, and its size must not be below its start.
    pub fn initialize(&mut self, binary_end: u32, atags: &[Atag])
        requires
            has_memory(atags@),
        ensures
            final(self).allocator() matches Some(allocator) && exists|index: int|
                is_first_mem(atags@, index) && (allocator.current(), allocator.end())
                    == memory_of(binary_end, (#[trigger] atags@[index])->Mem_0),
    {
        match memory_map(binary_end, atags) {
            Some((start, end)) => {
                self.0 = Some(bump::Allocator::new(start, end));
            },
            None => {},
        }
    }

    /// Allocates `size` bytes aligned to `align`, which must be a power of
    /// two, as `bump::Allocator::allocate` does. The allocator must have
    /// been initialized.
    pub fn allocate(&mut self, size: usize, align: usize) -> (block: Option<usize>)
        requires
            old(self).allocator() is Some,
            is_pow2(align as int),
        ensures
            final(self).allocator() matches Some(after) && {
                let before = old(self).allocator()->0;
                &&& block == before.place(size, align)
                &&& after.end() == before.end()
                &&& match block {
                    Some(addr) => {
                        &&& addr % align == 0
                        &&& before.current() <= addr
                        &&& addr + size <= before.end()
                        &&& after.current() == addr + size
                    },
                    None => after.current() == before.current(),
                }
            },
    {
        match &mut self.0 {
            Some(allocator) => allocator.allocate(size, align),
            None => None,
        }
    }

    /// Gives a block back, as `bump::Allocator::deallocate` does. The
    /// allocator must have been initialized.
    pub fn deallocate(&mut self, addr: usize, size: usize, align: usize)
        requires
            old(self).allocator() is Some,
        ensures
            *final(self) == *old(self),
    {
        match &mut self.0 {
            Some(allocator) => allocator.deallocate(addr, size, align),
            None => {},
        }
    }
}

} // verus!
