use tavern_kernel::hw::interrupt::{Controller, Registers as IrqRegisters};
use tavern_kernel::hw::timer::{Registers as TimerRegisters, Timer};
use tavern_kernel::process::{GlobalScheduler, Scan, Stack};
use tavern_kernel::traps::{handle_exception, Dispatch, Info, Kind, Source, TrapFrame};
use tavern_kernel::{kmain, TICK};

fn controller(pending: u32) -> Controller {
    Controller::new(IrqRegisters {
        irq_basic_pending: 0,
        irq_pending_1: pending,
        irq_pending_2: 0,
        fiq_control: 0,
        irqs_1: 0b10,
        irqs_2: 0,
        basic_irqs: 0,
    })
}

fn timer(clo: u32) -> Timer {
    Timer::new(TimerRegisters { cs: 0, clo, chi: 0, compare: [0; 4] })
}

fn started() -> (GlobalScheduler, TrapFrame) {
    let mut scheduler = GlobalScheduler::uninitialized();
    let bootstrap = scheduler.start(
        Stack::new(0x10_0000).unwrap(),
        Stack::new(0x20_0000).unwrap(),
        0x8_0000,
    );
    (scheduler, bootstrap.frame)
}

#[test]
fn tick_is_two_seconds() {
    assert_eq!(TICK, 2_000_000);
}

#[test]
fn zeroed_frame_holds_zero_in_every_register() {
    let frame = TrapFrame::zeroed();
    assert_eq!(frame.elr, 0);
    assert_eq!(frame.spsr, 0);
    assert_eq!(frame.sp, 0);
    assert_eq!(frame.tpidr, 0);
    let vector = [
        frame.q0, frame.q1, frame.q2, frame.q3, frame.q4, frame.q5, frame.q6, frame.q7,
        frame.q8, frame.q9, frame.q10, frame.q11, frame.q12, frame.q13, frame.q14, frame.q15,
        frame.q16, frame.q17, frame.q18, frame.q19, frame.q20, frame.q21, frame.q22,
        frame.q23, frame.q24, frame.q25, frame.q26, frame.q27, frame.q28, frame.q29,
        frame.q30, frame.q31,
    ];
    assert!(vector.iter().all(|register| *register == 0));
    let general = [
        frame.x0, frame.x1, frame.x2, frame.x3, frame.x4, frame.x5, frame.x6, frame.x7,
        frame.x8, frame.x9, frame.x10, frame.x11, frame.x12, frame.x13, frame.x14, frame.x15,
        frame.x16, frame.x17, frame.x18, frame.x19, frame.x20, frame.x21, frame.x22,
        frame.x23, frame.x24, frame.x25, frame.x26, frame.x27, frame.x28, frame.x29,
        frame.x30, frame.reserved,
    ];
    assert!(general.iter().all(|register| *register == 0));
}

#[test]
fn default_frame_is_the_zeroed_frame() {
    assert_eq!(TrapFrame::default(), TrapFrame::zeroed());
}

#[test]
fn timer_interrupt_arms_the_next_tick_and_switches() {
    let (mut scheduler, mut tf) = started();
    let mut timer = timer(500);
    let info = Info { source: Source::LowerAArch64, kind: Kind::Irq };
    let dispatch = handle_exception(info, 0, &mut tf, &controller(0b10), &mut timer, &mut scheduler);
    assert!(matches!(dispatch, Dispatch::Preempted(Some(Scan::Found(2)))));
    assert_eq!(tf.tpidr, 2);
    assert_eq!(timer.registers().compare[1], 500 + TICK);
    assert_eq!(timer.registers().cs, 0b10);
    assert_eq!(scheduler.get().unwrap().current_id(), Some(2));

    let dispatch = handle_exception(info, 0, &mut tf, &controller(0b10), &mut timer, &mut scheduler);
    assert!(matches!(dispatch, Dispatch::Preempted(Some(Scan::Found(1)))));
}

#[test]
fn other_exceptions_are_left_alone() {
    let (mut scheduler, mut tf) = started();
    let mut timer = timer(500);
    let before = tf;
    for kind in [Kind::Synchronous, Kind::Irq, Kind::Fiq, Kind::SError] {
        for source in
            [Source::CurrentSpEl0, Source::CurrentSpElx, Source::LowerAArch64, Source::LowerAArch32]
        {
            let dispatch = handle_exception(
                Info { source, kind },
                0x5600_0000,
                &mut tf,
                &controller(0b1000),
                &mut timer,
                &mut scheduler,
            );
            assert!(matches!(dispatch, Dispatch::Ignored));
        }
    }
    assert_eq!(tf, before);
    assert_eq!(timer.registers().compare, [0; 4]);
    assert_eq!(timer.registers().cs, 0);
    assert_eq!(scheduler.get().unwrap().current_id(), Some(1));
    assert_eq!(scheduler.get().unwrap().get(0).unwrap().trap_frame.tpidr, 1);
}

#[test]
fn exception_without_a_pending_timer_needs_no_scheduler() {
    let mut scheduler = GlobalScheduler::uninitialized();
    let mut tf = TrapFrame::zeroed();
    let mut timer = timer(0);
    let info = Info { source: Source::CurrentSpElx, kind: Kind::Synchronous };
    let dispatch = handle_exception(info, 0, &mut tf, &controller(0), &mut timer, &mut scheduler);
    assert!(matches!(dispatch, Dispatch::Ignored));
    assert!(!scheduler.is_initialized());
}

#[test]
fn boot_enables_the_timer_line_arms_the_tick_and_starts_the_scheduler() {
    let mut controller = Controller::new(IrqRegisters {
        irq_basic_pending: 0,
        irq_pending_1: 0,
        irq_pending_2: 0,
        fiq_control: 0,
        irqs_1: 0b1000,
        irqs_2: 0,
        basic_irqs: 0,
    });
    let mut timer = timer(0xffff_0000);
    let mut scheduler = GlobalScheduler::uninitialized();
    let bootstrap = kmain(
        &mut controller,
        &mut timer,
        &mut scheduler,
        Stack::new(0x40_0000).unwrap(),
        Stack::new(0x80_0000).unwrap(),
        0x8_1234,
    );
    assert_eq!(controller.registers().irqs_1, 0b1010);
    assert_eq!(timer.registers().cs, 0b10);
    assert_eq!(timer.registers().compare[1], 0xffff_0000u32.wrapping_add(2_000_000));
    assert_eq!(bootstrap.frame_address, 0x50_0000 - 1600);
    assert_eq!(bootstrap.frame.elr, 0x8_1234);
    assert_eq!(bootstrap.frame.sp, 0x50_0000 - 800);
    assert_eq!(bootstrap.frame.tpidr, 1);
    let started = scheduler.get().unwrap();
    assert_eq!(started.len(), 2);
    assert_eq!(started.current_id(), Some(1));
    assert_eq!(started.get(1).unwrap().trap_frame.sp, 0x90_0000);
    assert_eq!(started.get(1).unwrap().trap_frame.elr, 0x8_1234);
}
