use vstd::prelude::*;
use crate::process::stack::Stack;
use crate::traps::trap_frame::TrapFrame;

verus! {

/// The condition a waiting process is blocked on.
///
/// `poll` is given the saved registers and the stack of the waiting process
/// and reports whether the awaited event has arrived. It may change both, for
/// instance to leave a result in a register. The condition itself is not
/// changed by a poll: what it has to remember from one poll to the next, it
/// keeps in the process.
pub trait EventPoll: Send {
    /// Whether a poll of this condition can answer `ready` for a process
    /// with the saved registers `trap_frame` and the stack `stack`.
    ///
    /// A condition that depends on nothing but these admits one answer; a
    /// condition that looks at a device admits whichever answers the device
    /// can lead to. A condition that does not say admits both.
    open spec fn answers(&self, trap_frame: TrapFrame, stack: Stack, ready: bool) -> bool {
        true
    }

    fn poll(&self, trap_frame: &mut TrapFrame, stack: &mut Stack) -> (ready: bool)
        ensures
            self.answers(*old(trap_frame), *old(stack), ready),
    ;
}

/// The scheduling state of a process.
pub enum State {
    /// The process may be selected to run.
    Ready,
    /// The process is blocked until its condition reports the awaited event.
    Waiting(Box<dyn EventPoll>),
    /// The process is the one whose registers are live on the processor.
    Running,
}

} // verus!
