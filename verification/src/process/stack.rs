use vstd::prelude::*;

verus! {

/// Number of bytes in a process stack: one mebibyte.
pub const STACK_SIZE: usize = 0x10_0000;

/// Alignment, in bytes, of the bottom of a process stack.
pub const STACK_ALIGN: usize = 16;

/// The memory region that backs a process's stack, held as its address range.
///
/// The region starts at `bottom`, is `STACK_SIZE` bytes long and belongs to
/// the process that owns the `Stack` value.
#[derive(Debug)]
pub struct Stack {
    bottom: usize,
}

/// Whether a stack can start at `bottom`: the address is not null, it is
/// aligned, and the whole region lies inside the address space.
pub open spec fn stack_fits(bottom: usize) -> bool {
    &&& bottom != 0
    &&& bottom % STACK_ALIGN == 0
    &&& bottom + STACK_SIZE <= usize::MAX
}

impl Stack {
    #[verifier::type_invariant]
    spec fn fits(self) -> bool {
        stack_fits(self.bottom)
    }

    /// Address of the lowest byte of the stack.
    pub closed spec fn base(self) -> usize {
        self.bottom
    }

    /// Takes ownership of the region of `STACK_SIZE` bytes that an
    /// allocation placed at `bottom`. A null or misaligned address, or a
    /// region that would run past the end of the address space, is no stack.
    pub fn new(bottom: usize) -> (stack: Option<Stack>)
        ensures
            stack is Some <==> stack_fits(bottom),
            stack matches Some(s) ==> s.base() == bottom,
    {
        if bottom != 0 && bottom % STACK_ALIGN == 0 && bottom <= usize::MAX - STACK_SIZE {
            Some(Stack { bottom })
        } else {
            None
        }
    }

    /// Address of the lowest byte of the stack.
    pub fn bottom(&self) -> (addr: usize)
        ensures
            addr == self.base(),
            stack_fits(addr),
    {
        proof {
            use_type_invariant(self);
        }
        self.bottom
    }

    /// Address just past the highest byte of the stack; a stack grows down
    /// from here.
    pub fn top(&self) -> (addr: usize)
        ensures
            addr == self.base() + STACK_SIZE,
            stack_fits(self.base()),
    {
        proof {
            use_type_invariant(self);
        }
        self.bottom + STACK_SIZE
    }
}

} // verus!
