use vstd::prelude::*;

verus! {

/// The interrupt sources of the machine.
#[derive(Debug, Copy, Clone, PartialEq, Eq)]
pub enum Interrupt {
    Timer1,
    Timer3,
    Usb,
    Gpio0,
    Gpio1,
    Gpio2,
    Gpio3,
    Uart,
}

impl Interrupt {
    /// The number of the interrupt line that this source raises.
    pub open spec fn number(self) -> u8 {
        match self {
            Interrupt::Timer1 => 1,
            Interrupt::Timer3 => 3,
            Interrupt::Usb => 9,
            Interrupt::Gpio0 => 49,
            Interrupt::Gpio1 => 50,
            Interrupt::Gpio2 => 51,
            Interrupt::Gpio3 => 52,
            Interrupt::Uart => 57,
        }
    }

    /// The number of the interrupt line that this source raises.
    #[verifier::when_used_as_spec(number)]
    pub fn line(self) -> (line: u8)
        ensures
            line == self.number(),
    {
        match self {
            Interrupt::Timer1 => 1,
            Interrupt::Timer3 => 3,
            Interrupt::Usb => 9,
            Interrupt::Gpio0 => 49,
            Interrupt::Gpio1 => 50,
            Interrupt::Gpio2 => 51,
            Interrupt::Gpio3 => 52,
            Interrupt::Uart => 57,
        }
    }
}

/// The word with only the bit of `line` set.
pub open spec fn line_mask(line: u8) -> u32
    recommends
        line < 32,
{
    1u32 << line
}

/// The interrupt controller as its registers show it.
///
/// The controller keeps one enable bit for each line. The set-enable and
/// the clear-enable register are two ways in to those bits: a read of either
/// returns the enable bits; a write to the set-enable register sets the
/// enable bit of every line whose bit in the written word is 1; a write to
/// the clear-enable register clears the enable bit of every such line. Bits
/// written as 0 change nothing. The pending registers are read-only.
#[derive(Debug, Copy, Clone, PartialEq, Eq)]
pub struct Registers {
    /// Pending bits of the basic interrupts.
    pub irq_basic_pending: u32,
    /// Pending bits of lines 0 to 31.
    pub irq_pending_1: u32,
    /// Pending bits of lines 32 to 63.
    pub irq_pending_2: u32,
    /// Selection of the source that raises the fast interrupt.
    pub fiq_control: u32,
    /// Enable bits of lines 0 to 31.
    pub irqs_1: u32,
    /// Enable bits of lines 32 to 63.
    pub irqs_2: u32,
    /// Enable bits of the basic interrupts.
    pub basic_irqs: u32,
}

impl Registers {
    /// Whether `line`, one of the lines 0 to 31, is enabled.
    pub open spec fn enabled(self, line: u8) -> bool
        recommends
            line < 32,
    {
        self.irqs_1 & line_mask(line) == line_mask(line)
    }

    /// Whether `line`, one of the lines 0 to 31, is pending.
    pub open spec fn pending(self, line: u8) -> bool
        recommends
            line < 32,
    {
        self.irq_pending_1 & line_mask(line) == line_mask(line)
    }

    /// The registers once `line` has been enabled: its enable bit is set
    /// and nothing else has changed.
    pub open spec fn with_enabled(self, line: u8) -> Registers
        recommends
            line < 32,
    {
        Registers { irqs_1: self.irqs_1 | line_mask(line), ..self }
    }

    /// The registers once `line` has been disabled: its enable bit is clear
    /// and nothing else has changed.
    pub open spec fn with_disabled(self, line: u8) -> Registers
        recommends
            line < 32,
    {
        Registers { irqs_1: self.irqs_1 & !line_mask(line), ..self }
    }

    /// Reads the set-enable register of lines 0 to 31.
    pub fn read_enable_irqs_1(&self) -> (value: u32)
        ensures
            value == self.irqs_1,
    {
        self.irqs_1
    }

    /// Writes the set-enable register of lines 0 to 31.
    pub fn write_enable_irqs_1(&mut self, value: u32)
        ensures
            *final(self) == (Registers { irqs_1: old(self).irqs_1 | value, ..*old(self) }),
    {
        self.irqs_1 = self.irqs_1 | value;
    }

    /// Reads the clear-enable register of lines 0 to 31.
    pub fn read_disable_irqs_1(&self) -> (value: u32)
        ensures
            value == self.irqs_1,
    {
        self.irqs_1
    }

    /// Writes the clear-enable register of lines 0 to 31.
    pub fn write_disable_irqs_1(&mut self, value: u32)
        ensures
            *final(self) == (Registers { irqs_1: old(self).irqs_1 & !value, ..*old(self) }),
    {
        self.irqs_1 = self.irqs_1 & !value;
    }

    /// Reads the pending register of lines 0 to 31.
    pub fn read_irq_pending_1(&self) -> (value: u32)
        ensures
            value == self.irq_pending_1,
    {
        self.irq_pending_1
    }
}

/// An interrupt controller. Used to enable and disable interrupts and to
/// check whether an interrupt is pending.
///
/// Only the lines 0 to 31 can be handled; the sources on higher lines are
/// outside what the controller's methods accept.
pub struct Controller {
    registers: Registers,
}

impl Controller {
    /// The registers of the controller.
    pub closed spec fn view(&self) -> Registers {
        self.registers
    }

    /// A handle to the controller whose registers are `registers`.
    pub fn new(registers: Registers) -> (controller: Controller)
        ensures
            controller@ == registers,
    {
        Controller { registers }
    }

    /// The registers of the controller.
    pub fn registers(&self) -> (registers: Registers)
        ensures
            registers == self@,
    {
        self.registers
    }

    /// Enables the interrupt `interrupt`: sets its enable bit and leaves every
    /// other bit of every register as it is.
    pub fn enable(&mut self, interrupt: Interrupt)
        requires
            interrupt.line() < 32,
        ensures
            final(self)@ == old(self)@.with_enabled(interrupt.line()),
    {
        let mask: u32 = 1u32 << (interrupt.line() as u32);
        let value = self.registers.read_enable_irqs_1();
        self.registers.write_enable_irqs_1(value | mask);
        proof {
            let line = interrupt.line();
            assert(value | (value | (1u32 << (line as u32))) == value | (1u32 << line))
                by (bit_vector)
                requires
                    line < 32,
            ;
        }
    }

    /// Disables the interrupt `interrupt`: clears its enable bit and leaves every
    /// other bit of every register as it is.
    pub fn disable(&mut self, interrupt: Interrupt)
        requires
            interrupt.line() < 32,
        ensures
            final(self)@ == old(self)@.with_disabled(interrupt.line()),
    {
        let mask: u32 = 1u32 << (interrupt.line() as u32);
        let value = self.registers.read_disable_irqs_1();
        self.registers.write_disable_irqs_1(value & mask);
        proof {
            let line = interrupt.line();
            assert(value & !(value & (1u32 << (line as u32))) == value & !(1u32 << line))
                by (bit_vector)
                requires
                    line < 32,
            ;
        }
    }

    /// Returns `true` if `interrupt` is pending: if its bit is set in the pending
    /// register. Whether the interrupt is enabled plays no part.
    pub fn is_pending(&self, interrupt: Interrupt) -> (pending: bool)
        requires
            interrupt.line() < 32,
        ensures
            pending == self@.pending(interrupt.line()),
    {
        let mask: u32 = 1u32 << (interrupt.line() as u32);
        proof {
            let line = interrupt.line();
            assert(1u32 << (line as u32) == 1u32 << line) by (bit_vector)
                requires
                    line < 32,
            ;
        }
        (self.registers.read_irq_pending_1() & mask) == mask
    }
}

/// Enabling a line has no effect on what is pending: a line is pending
/// after it has been enabled exactly if its pending bit was set before, and
/// that whether or not the line was enabled.
pub proof fn lemma_enable_keeps_pending(registers: Registers, line: u8, other: u8)
    requires
        line < 32,
        other < 32,
    ensures
        registers.with_enabled(line).irq_pending_1 == registers.irq_pending_1,
        registers.with_enabled(line).pending(other) == registers.pending(other),
        registers.with_disabled(line).pending(other) == registers.pending(other),
{
}

/// Enabling a line sets its enable bit, disabling it clears the bit, and
/// neither touches the enable bit of another line. So a line that is
/// disabled after it was enabled is left disabled.
pub proof fn lemma_enable_then_disable(registers: Registers, line: u8, other: u8)
    requires
        line < 32,
        other < 32,
        other != line,
    ensures
        registers.with_enabled(line).enabled(line),
        !registers.with_disabled(line).enabled(line),
        !registers.with_enabled(line).with_disabled(line).enabled(line),
        registers.with_enabled(line).enabled(other) == registers.enabled(other),
        registers.with_disabled(line).enabled(other) == registers.enabled(other),
        registers.with_enabled(line).with_disabled(line).enabled(other) == registers.enabled(
            other,
        ),
{
    let e = registers.irqs_1;
    assert((e | (1u32 << line)) & (1u32 << line) == (1u32 << line)) by (bit_vector)
        requires
            line < 32,
    ;
    assert((e & !(1u32 << line)) & (1u32 << line) != (1u32 << line)) by (bit_vector)
        requires
            line < 32,
    ;
    assert(((e | (1u32 << line)) & !(1u32 << line)) & (1u32 << line) != (1u32 << line))
        by (bit_vector)
        requires
            line < 32,
    ;
    assert((e | (1u32 << line)) & (1u32 << other) == e & (1u32 << other)) by (bit_vector)
        requires
            line < 32,
            other < 32,
            other != line,
    ;
    assert((e & !(1u32 << line)) & (1u32 << other) == e & (1u32 << other)) by (bit_vector)
        requires
            line < 32,
            other < 32,
            other != line,
    ;
    assert(((e | (1u32 << line)) & !(1u32 << line)) & (1u32 << other) == e & (1u32 << other))
        by (bit_vector)
        requires
            line < 32,
            other < 32,
            other != line,
    ;
}

} // verus!
