use vstd::prelude::*;

verus! {

/// Number of bytes a trap frame occupies when it is laid out in memory:
/// four 64-bit special registers, thirty-two 128-bit vector registers and
/// thirty-two 64-bit slots for the general-purpose registers.
pub const TRAP_FRAME_SIZE: usize = 800;

/// The saved register image of a suspended execution context.
///
/// The fields stand in the order in which exception entry stores them, so a
/// memory image of the frame can be written field by field in declaration
/// order.
#[derive(Debug, Copy, Clone, PartialEq, Eq)]
pub struct TrapFrame {
    /// Exception link register: where execution resumes.
    pub elr: u64,
    /// Saved program status register.
    pub spsr: u64,
    /// Stack pointer of the suspended context.
    pub sp: u64,
    /// Thread id register; an admission writes the process id here.
    pub tpidr: u64,
    /// Vector registers.
    pub q0: u128,
    pub q1: u128,
    pub q2: u128,
    pub q3: u128,
    pub q4: u128,
    pub q5: u128,
    pub q6: u128,
    pub q7: u128,
    pub q8: u128,
    pub q9: u128,
    pub q10: u128,
    pub q11: u128,
    pub q12: u128,
    pub q13: u128,
    pub q14: u128,
    pub q15: u128,
    pub q16: u128,
    pub q17: u128,
    pub q18: u128,
    pub q19: u128,
    pub q20: u128,
    pub q21: u128,
    pub q22: u128,
    pub q23: u128,
    pub q24: u128,
    pub q25: u128,
    pub q26: u128,
    pub q27: u128,
    pub q28: u128,
    pub q29: u128,
    pub q30: u128,
    pub q31: u128,
    /// General-purpose registers.
    pub x1: u64,
    pub x2: u64,
    pub x3: u64,
    pub x4: u64,
    pub x5: u64,
    pub x6: u64,
    pub x7: u64,
    pub x8: u64,
    pub x9: u64,
    pub x10: u64,
    pub x11: u64,
    pub x12: u64,
    pub x13: u64,
    pub x14: u64,
    pub x15: u64,
    pub x16: u64,
    pub x17: u64,
    pub x18: u64,
    pub x19: u64,
    pub x20: u64,
    pub x21: u64,
    pub x22: u64,
    pub x23: u64,
    pub x24: u64,
    pub x25: u64,
    pub x26: u64,
    pub x27: u64,
    pub x28: u64,
    pub x29: u64,
    pub reserved: u64,
    pub x30: u64,
    pub x0: u64,
}

impl TrapFrame {
    /// Every vector register holds zero.
    pub open spec fn vector_registers_zero(self) -> bool {
        &&& self.q0 == 0
        &&& self.q1 == 0
        &&& self.q2 == 0
        &&& self.q3 == 0
        &&& self.q4 == 0
        &&& self.q5 == 0
        &&& self.q6 == 0
        &&& self.q7 == 0
        &&& self.q8 == 0
        &&& self.q9 == 0
        &&& self.q10 == 0
        &&& self.q11 == 0
        &&& self.q12 == 0
        &&& self.q13 == 0
        &&& self.q14 == 0
        &&& self.q15 == 0
        &&& self.q16 == 0
        &&& self.q17 == 0
        &&& self.q18 == 0
        &&& self.q19 == 0
        &&& self.q20 == 0
        &&& self.q21 == 0
        &&& self.q22 == 0
        &&& self.q23 == 0
        &&& self.q24 == 0
        &&& self.q25 == 0
        &&& self.q26 == 0
        &&& self.q27 == 0
        &&& self.q28 == 0
        &&& self.q29 == 0
        &&& self.q30 == 0
        &&& self.q31 == 0
    }

    /// Every general-purpose register, and the reserved slot, holds zero.
    pub open spec fn general_registers_zero(self) -> bool {
        &&& self.x1 == 0
        &&& self.x2 == 0
        &&& self.x3 == 0
        &&& self.x4 == 0
        &&& self.x5 == 0
        &&& self.x6 == 0
        &&& self.x7 == 0
        &&& self.x8 == 0
        &&& self.x9 == 0
        &&& self.x10 == 0
        &&& self.x11 == 0
        &&& self.x12 == 0
        &&& self.x13 == 0
        &&& self.x14 == 0
        &&& self.x15 == 0
        &&& self.x16 == 0
        &&& self.x17 == 0
        &&& self.x18 == 0
        &&& self.x19 == 0
        &&& self.x20 == 0
        &&& self.x21 == 0
        &&& self.x22 == 0
        &&& self.x23 == 0
        &&& self.x24 == 0
        &&& self.x25 == 0
        &&& self.x26 == 0
        &&& self.x27 == 0
        &&& self.x28 == 0
        &&& self.x29 == 0
        &&& self.reserved == 0
        &&& self.x30 == 0
        &&& self.x0 == 0
    }

    /// Every register of the frame holds zero.
    pub open spec fn is_zeroed(self) -> bool {
        &&& self.elr == 0
        &&& self.spsr == 0
        &&& self.sp == 0
        &&& self.tpidr == 0
        &&& self.vector_registers_zero()
        &&& self.general_registers_zero()
    }

    /// Whether this is the frame a process starts from: execution begins at
    /// `entry` on the stack pointer `sp` under the thread id `id`, and every
    /// other register holds zero.
    pub open spec fn starts(self, entry: u64, sp: u64, id: u64) -> bool {
        &&& self.elr == entry
        &&& self.spsr == 0
        &&& self.sp == sp
        &&& self.tpidr == id
        &&& self.vector_registers_zero()
        &&& self.general_registers_zero()
    }

    /// A frame with every register cleared.
    pub fn zeroed() -> (frame: TrapFrame)
        ensures
            frame.is_zeroed(),
    {
        TrapFrame {
            elr: 0,
            spsr: 0,
            sp: 0,
            tpidr: 0,
            q0: 0,
            q1: 0,
            q2: 0,
            q3: 0,
            q4: 0,
            q5: 0,
            q6: 0,
            q7: 0,
            q8: 0,
            q9: 0,
            q10: 0,
            q11: 0,
            q12: 0,
            q13: 0,
            q14: 0,
            q15: 0,
            q16: 0,
            q17: 0,
            q18: 0,
            q19: 0,
            q20: 0,
            q21: 0,
            q22: 0,
            q23: 0,
            q24: 0,
            q25: 0,
            q26: 0,
            q27: 0,
            q28: 0,
            q29: 0,
            q30: 0,
            q31: 0,
            x1: 0,
            x2: 0,
            x3: 0,
            x4: 0,
            x5: 0,
            x6: 0,
            x7: 0,
            x8: 0,
            x9: 0,
            x10: 0,
            x11: 0,
            x12: 0,
            x13: 0,
            x14: 0,
            x15: 0,
            x16: 0,
            x17: 0,
            x18: 0,
            x19: 0,
            x20: 0,
            x21: 0,
            x22: 0,
            x23: 0,
            x24: 0,
            x25: 0,
            x26: 0,
            x27: 0,
            x28: 0,
            x29: 0,
            reserved: 0,
            x30: 0,
            x0: 0,
        }
    }
}

impl Default for TrapFrame {
    /// A frame with every register cleared.
    fn default() -> (frame: TrapFrame)
        ensures
            frame.is_zeroed(),
    {
        TrapFrame::zeroed()
    }
}

/// There is only one zeroed frame.
pub proof fn lemma_zeroed_is_unique(a: TrapFrame, b: TrapFrame)
    requires
        a.is_zeroed(),
        b.is_zeroed(),
    ensures
        a == b,
{
}

} // verus!
