//! The core of a small single-core kernel: the process scheduler and its
//! trap-frame protocol, the exception dispatcher that drives preemption, and
//! the interrupt controller and timer it relies on.

use vstd::prelude::*;
use crate::hw::interrupt::{Controller, Interrupt};
use crate::hw::timer::Timer;
use crate::process::scheduler::{Bootstrap, GlobalScheduler};
use crate::process::stack::Stack;

pub mod allocator;
pub mod atags;
pub mod hw;
pub mod process;
pub mod traps;

verus! {

/// The length of a scheduling tick, in microseconds.
pub const TICK: u32 = 2 * 1_000 * 1_000;

/// Brings up preemptive multitasking once the heap is there.
///
/// The line of the preemption timer is enabled, the timer is armed for the
/// first tick, `TICK` microseconds from now, and the scheduler is started
/// with its first two processes on the stacks `first` and `second`, both
/// beginning at `entry`. The result is what the hand-off to the first
/// process needs.
pub fn kmain(
    controller: &mut Controller,
    timer: &mut Timer,
    scheduler: &mut GlobalScheduler,
    first: Stack,
    second: Stack,
    entry: u64,
) -> (bootstrap: Bootstrap)
    ensures
        final(controller)@ == old(controller)@.with_enabled(Interrupt::Timer1.line()),
        final(timer)@ == old(timer)@.armed(TICK),
        final(scheduler).started(first, second, entry, bootstrap),
{
    controller.enable(Interrupt::Timer1);
    timer.tick_in(TICK);
    scheduler.start(first, second, entry)
}

} // verus!
