use tavern_kernel::hw::interrupt::{Controller, Interrupt, Registers as IrqRegisters};
use tavern_kernel::hw::timer::{
    current_time, spin_sleep_ms, spin_sleep_us, Registers as TimerRegisters, Timer,
};

fn irq_registers(pending: u32, enabled: u32) -> IrqRegisters {
    IrqRegisters {
        irq_basic_pending: 0x11,
        irq_pending_1: pending,
        irq_pending_2: 0x22,
        fiq_control: 0x33,
        irqs_1: enabled,
        irqs_2: 0x44,
        basic_irqs: 0x55,
    }
}

fn timer_registers(clo: u32, chi: u32) -> TimerRegisters {
    TimerRegisters { cs: 0, clo, chi, compare: [10, 20, 30, 40] }
}

#[test]
fn interrupt_lines_have_their_numbers() {
    assert_eq!(Interrupt::Timer1.line(), 1);
    assert_eq!(Interrupt::Timer3.line(), 3);
    assert_eq!(Interrupt::Usb.line(), 9);
    assert_eq!(Interrupt::Gpio0.line(), 49);
    assert_eq!(Interrupt::Gpio1.line(), 50);
    assert_eq!(Interrupt::Gpio2.line(), 51);
    assert_eq!(Interrupt::Gpio3.line(), 52);
    assert_eq!(Interrupt::Uart.line(), 57);
}

#[test]
fn enable_sets_the_enable_bit_of_the_line_only() {
    let mut controller = Controller::new(irq_registers(0, 0b1000_0000));
    controller.enable(Interrupt::Timer1);
    assert_eq!(controller.registers(), irq_registers(0, 0b1000_0010));
    controller.enable(Interrupt::Usb);
    assert_eq!(controller.registers(), irq_registers(0, 0b10_1000_0010));
    controller.enable(Interrupt::Timer1);
    assert_eq!(controller.registers(), irq_registers(0, 0b10_1000_0010));
}

#[test]
fn disable_clears_the_enable_bit_of_the_line_only() {
    let mut controller = Controller::new(irq_registers(0xffff_ffff, 0b1000_1010));
    controller.disable(Interrupt::Timer3);
    assert_eq!(controller.registers(), irq_registers(0xffff_ffff, 0b1000_0010));
    controller.disable(Interrupt::Timer3);
    assert_eq!(controller.registers(), irq_registers(0xffff_ffff, 0b1000_0010));
    controller.disable(Interrupt::Usb);
    assert_eq!(controller.registers(), irq_registers(0xffff_ffff, 0b1000_0010));
}

#[test]
fn disable_after_enable_leaves_the_line_disabled() {
    let mut controller = Controller::new(irq_registers(0, 0));
    controller.enable(Interrupt::Timer1);
    assert_eq!(controller.registers().irqs_1 & 0b10, 0b10);
    controller.disable(Interrupt::Timer1);
    assert_eq!(controller.registers().irqs_1 & 0b10, 0);
    assert_eq!(controller.registers(), irq_registers(0, 0));
}

#[test]
fn pending_is_the_pending_bit_whatever_is_enabled() {
    let mut controller = Controller::new(irq_registers(0b1000, 0));
    assert!(!controller.is_pending(Interrupt::Timer1));
    assert!(controller.is_pending(Interrupt::Timer3));
    controller.enable(Interrupt::Timer1);
    controller.enable(Interrupt::Timer3);
    assert!(!controller.is_pending(Interrupt::Timer1));
    assert!(controller.is_pending(Interrupt::Timer3));
    controller.disable(Interrupt::Timer3);
    assert!(controller.is_pending(Interrupt::Timer3));
    assert_eq!(controller.registers().irq_pending_1, 0b1000);

    let controller = Controller::new(irq_registers(0b10, 0xffff_ffff));
    assert!(controller.is_pending(Interrupt::Timer1));
    assert!(!controller.is_pending(Interrupt::Usb));
}

#[test]
fn read_joins_the_high_and_the_low_half() {
    let timer = Timer::new(timer_registers(0x89ab_cdef, 0x0123_4567));
    assert_eq!(timer.read(), 0x0123_4567_89ab_cdef);
    assert_eq!(current_time(&timer), 0x0123_4567_89ab_cdef);
    assert_eq!(Timer::new(timer_registers(5, 0)).read(), 5);
    assert_eq!(Timer::new(timer_registers(0, 1)).read(), 0x1_0000_0000);
    assert_eq!(Timer::new(timer_registers(u32::MAX, u32::MAX)).read(), u64::MAX);
}

#[test]
fn tick_in_arms_channel_one() {
    let mut timer = Timer::new(timer_registers(1_000, 7));
    timer.tick_in(2_000_000);
    let registers = timer.registers();
    assert_eq!(registers.cs, 0b10);
    assert_eq!(registers.compare, [10, 2_001_000, 30, 40]);
    assert_eq!(registers.clo, 1_000);
    assert_eq!(registers.chi, 7);
}

#[test]
fn tick_in_keeps_the_other_status_bits() {
    let mut registers = timer_registers(0, 0);
    registers.cs = 0b1101;
    let mut timer = Timer::new(registers);
    timer.tick_in(1);
    assert_eq!(timer.registers().cs, 0b1111);
}

#[test]
fn tick_in_wraps_round_the_low_half() {
    let mut timer = Timer::new(timer_registers(0xffff_fff0, 3));
    timer.tick_in(0x20);
    assert_eq!(timer.registers().compare[1], 0x10);
    let mut timer = Timer::new(timer_registers(u32::MAX, 0));
    timer.tick_in(u32::MAX);
    assert_eq!(timer.registers().compare[1], u32::MAX - 1);
}

#[test]
fn armed_channel_matches_once_while_the_counter_advances() {
    let start: u32 = 0xffff_ff00;
    let us: u32 = 0x180;
    let mut timer = Timer::new(timer_registers(start, 0));
    timer.tick_in(us);
    let armed = timer.registers();
    let mut matches = Vec::new();
    for elapsed in 0..=1_000u32 {
        let mut now = armed;
        now.clo = start.wrapping_add(elapsed);
        if now.cs & 0b10 == 0b10 && now.clo == now.compare[1] {
            matches.push(elapsed);
        }
    }
    assert_eq!(matches, vec![us]);
}

#[test]
fn spin_sleep_is_over_after_more_than_the_time_asked_for() {
    let sleep = spin_sleep_us(&Timer::new(timer_registers(100, 2)), 50);
    assert!(!sleep.is_over(&Timer::new(timer_registers(100, 2))));
    assert!(!sleep.is_over(&Timer::new(timer_registers(149, 2))));
    assert!(!sleep.is_over(&Timer::new(timer_registers(150, 2))));
    assert!(sleep.is_over(&Timer::new(timer_registers(151, 2))));
    assert!(sleep.is_over(&Timer::new(timer_registers(0, 3))));
}

#[test]
fn spin_sleep_ms_counts_a_thousand_microseconds_for_each_millisecond() {
    let sleep = spin_sleep_ms(&Timer::new(timer_registers(0, 0)), 3);
    assert!(!sleep.is_over(&Timer::new(timer_registers(3_000, 0))));
    assert!(sleep.is_over(&Timer::new(timer_registers(3_001, 0))));
}

#[test]
fn enable_registers_set_and_clear_the_bits_written_as_one() {
    let mut registers = irq_registers(0b0101, 0b0011);
    assert_eq!(registers.read_enable_irqs_1(), 0b0011);
    assert_eq!(registers.read_disable_irqs_1(), 0b0011);
    assert_eq!(registers.read_irq_pending_1(), 0b0101);

    registers.write_enable_irqs_1(0b1010);
    assert_eq!(registers, irq_registers(0b0101, 0b1011));
    registers.write_enable_irqs_1(0);
    assert_eq!(registers, irq_registers(0b0101, 0b1011));

    registers.write_disable_irqs_1(0b0110);
    assert_eq!(registers, irq_registers(0b0101, 0b1001));
    registers.write_disable_irqs_1(0);
    assert_eq!(registers, irq_registers(0b0101, 0b1001));
    assert_eq!(registers.read_enable_irqs_1(), 0b1001);
    assert_eq!(registers.read_disable_irqs_1(), 0b1001);
}
