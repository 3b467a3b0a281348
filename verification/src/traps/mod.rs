pub mod trap_frame;

pub use self::trap_frame::TrapFrame;

use vstd::prelude::*;
use crate::hw::interrupt::{Controller, Interrupt};
use crate::hw::timer::Timer;
use crate::process::scheduler::{GlobalScheduler, Scan};
use crate::process::state::State;
use crate::TICK;

verus! {

/// The kind of an exception.
#[derive(Debug, PartialEq, Eq, Copy, Clone)]
pub enum Kind {
    Synchronous,
    Irq,
    Fiq,
    SError,
}

/// Where an exception came from: the exception level and stack in use when
/// it was taken.
#[derive(Debug, PartialEq, Eq, Copy, Clone)]
pub enum Source {
    CurrentSpEl0,
    CurrentSpElx,
    LowerAArch64,
    LowerAArch32,
}

/// The classification of an exception.
#[derive(Debug, PartialEq, Eq, Copy, Clone)]
pub struct Info {
    pub source: Source,
    pub kind: Kind,
}

/// What the dispatcher did with an exception.
pub enum Dispatch {
    /// The preemption timer was not pending. Nothing was done.
    Ignored,
    /// The preemption timer was pending. It has been armed for the next
    /// tick and the scheduler has switched, with this result.
    Preempted(Option<Scan>),
}

/// Handles an exception. `info` is its source and kind, `esr` the value of
/// the exception syndrome register and `tf` the registers of the
/// interrupted context.
///
/// When the line of the preemption timer is pending, the timer is armed to
/// match `TICK` microseconds from now and the scheduler switches: the
/// interrupted process is put away as ready with the registers `tf`, and
/// `tf` receives the registers of the process to resume. For every other
/// exception nothing is done. Neither `info` nor `esr` plays a part in the
/// decision.
pub fn handle_exception(
    info: Info,
    esr: u32,
    tf: &mut TrapFrame,
    controller: &Controller,
    timer: &mut Timer,
    scheduler: &mut GlobalScheduler,
) -> (dispatch: Dispatch)
    requires
        controller@.pending(Interrupt::Timer1.line()) ==> old(scheduler).scheduler() is Some,
    ensures
        !controller@.pending(Interrupt::Timer1.line()) ==> {
            &&& dispatch is Ignored
            &&& *final(tf) == *old(tf)
            &&& final(timer)@ == old(timer)@
            &&& *final(scheduler) == *old(scheduler)
        },
        controller@.pending(Interrupt::Timer1.line()) ==> {
            &&& final(timer)@ == old(timer)@.armed(TICK)
            &&& dispatch matches Dispatch::Preempted(result)
            &&& final(scheduler).scheduler() matches Some(after)
            &&& old(scheduler).scheduler()->0.switched(
                State::Ready,
                *old(tf),
                after,
                *final(tf),
                result,
            )
            &&& old(scheduler).scheduler()->0.well_formed() ==> after.well_formed()
        },
{
    if controller.is_pending(Interrupt::Timer1) {
        timer.tick_in(TICK);
        let scheduled = scheduler.switch(State::Ready, tf);
        Dispatch::Preempted(scheduled)
    } else {
        Dispatch::Ignored
    }
}

} // verus!
