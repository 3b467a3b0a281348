use vstd::prelude::*;
use crate::process::stack::Stack;
use crate::process::state::State;
use crate::traps::trap_frame::TrapFrame;

verus! {

/// A process id.
pub type Id = u64;

/// The complete state of a process.
pub struct Process {
    /// The id under which the scheduler admitted the process. It is 0 as
    /// long as the process has not been admitted; the ids that are handed
    /// out begin at 1.
    pub id: Id,
    /// The saved registers of the process.
    pub trap_frame: Box<TrapFrame>,
    /// The memory region used as the process's stack.
    pub stack: Stack,
    /// The scheduling state of the process.
    pub state: State,
}

impl Process {
    /// Whether a readiness check of this process is bound to answer yes:
    /// the process is ready, or it waits on a condition that gives no other
    /// answer for its registers and its stack.
    pub open spec fn must_be_ready(self) -> bool {
        match self.state {
            State::Ready => true,
            State::Running => false,
            State::Waiting(poll) => !poll.answers(*self.trap_frame, self.stack, false),
        }
    }

    /// Whether a readiness check of this process is bound to answer no: the
    /// process is running, or it waits on a condition that gives no other
    /// answer for its registers and its stack.
    pub open spec fn cannot_be_ready(self) -> bool {
        match self.state {
            State::Ready => false,
            State::Running => true,
            State::Waiting(poll) => !poll.answers(*self.trap_frame, self.stack, true),
        }
    }

    /// Whether `after` is what a readiness check that answered `ready` can
    /// leave of `self`.
    ///
    /// A ready process answers yes and a running one answers no, and neither
    /// is touched. For a waiting process the answer is one that its
    /// condition gives for the registers and the stack of the process. The
    /// process is still waiting on the same condition afterwards, whatever
    /// the answer, and keeps its id; its registers and stack are as the
    /// condition left them.
    pub open spec fn checked(self, after: Process, ready: bool) -> bool {
        match self.state {
            State::Ready => ready && after == self,
            State::Running => !ready && after == self,
            State::Waiting(poll) => {
                &&& after.state == self.state
                &&& after.id == self.id
                &&& poll.answers(*self.trap_frame, self.stack, ready)
            },
        }
    }

    /// A new process on `stack`, with every saved register cleared, ready to
    /// be scheduled and not yet admitted.
    pub fn new(stack: Stack) -> (process: Process)
        ensures
            process.id == 0,
            process.trap_frame.is_zeroed(),
            process.stack == stack,
            process.state is Ready,
    {
        Process { id: 0, trap_frame: Box::new(TrapFrame::zeroed()), stack, state: State::Ready }
    }

    /// Reports whether this process can be scheduled now.
    ///
    /// A waiting process has its condition polled, and the answer is the
    /// condition's. The process stays in the waiting state, on the same
    /// condition, even when the condition reports that the event has
    /// arrived: the answer alone tells the scheduler that it may run.
    pub fn is_ready(&mut self) -> (ready: bool)
        ensures
            old(self).checked(*final(self), ready),
    {
        match &self.state {
            State::Ready => true,
            State::Running => false,
            State::Waiting(poll_fn) => poll_fn.poll(&mut *self.trap_frame, &mut self.stack),
        }
    }
}

} // verus!
