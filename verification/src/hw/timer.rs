use vstd::prelude::*;

verus! {

/// The registers of the system timer.
///
/// The timer counts microseconds in a free-running 64-bit counter. Each of
/// its four channels compares the low half of the counter with its compare
/// register; the channel's bit in the status register says whether the
/// channel is set up to detect the match.
#[derive(Debug, Copy, Clone, PartialEq, Eq)]
pub struct Registers {
    /// Control and status: one bit for each channel.
    pub cs: u32,
    /// The low 32 bits of the counter.
    pub clo: u32,
    /// The high 32 bits of the counter.
    pub chi: u32,
    /// The compare registers of the four channels.
    pub compare: [u32; 4],
}

impl Registers {
    /// The counter: the high half followed by the low half.
    pub open spec fn counter(self) -> int {
        self.chi * 0x1_0000_0000 + self.clo
    }

    /// The registers once channel 1 has been armed to match `us`
    /// microseconds from the present low half of the counter: the compare
    /// register of channel 1 holds the low half plus `us`, wrapped to 32
    /// bits, bit 1 of the status register is set, and nothing else has
    /// changed.
    pub open spec fn armed(self, us: u32) -> Registers {
        Registers {
            cs: self.cs | 0b10,
            clo: self.clo,
            chi: self.chi,
            compare: [
                self.compare[0],
                ((self.clo + us) % 0x1_0000_0000) as u32,
                self.compare[2],
                self.compare[3],
            ],
        }
    }

    /// The low half of the counter once `elapsed` more microseconds have
    /// been counted.
    pub open spec fn low_after(self, elapsed: int) -> int {
        (self.clo + elapsed) % 0x1_0000_0000
    }

    /// Whether channel 1 shows a match when `elapsed` more microseconds have
    /// been counted: the channel's status bit is set and the low half of the
    /// counter has reached the channel's compare register.
    pub open spec fn matches_after(self, elapsed: int) -> bool {
        &&& self.cs & 0b10 == 0b10
        &&& self.low_after(elapsed) == self.compare[1]
    }
}

/// The system timer.
pub struct Timer {
    registers: Registers,
}

impl Timer {
    /// The registers of the timer.
    pub closed spec fn view(&self) -> Registers {
        self.registers
    }

    /// A handle to the timer whose registers are `registers`.
    pub fn new(registers: Registers) -> (timer: Timer)
        ensures
            timer@ == registers,
    {
        Timer { registers }
    }

    /// The registers of the timer.
    pub fn registers(&self) -> (registers: Registers)
        ensures
            registers == self@,
    {
        self.registers
    }

    /// Reads the counter and returns its 64-bit value, the number of
    /// elapsed microseconds.
    ///
    /// The high half is taken first and the low half second. On the device
    /// the low half can wrap between the two reads, and the value put
    /// together is then off by 2^32; nothing here guards against that.
    pub fn read(&self) -> (counter: u64)
        ensures
            counter == self@.counter(),
    {
        let high: u32 = self.registers.chi;
        let low: u32 = self.registers.clo;
        let mut counter: u64 = high as u64;
        counter = counter << 32;
        assert(counter == high * 0x1_0000_0000) by (bit_vector)
            requires
                counter == (high as u64) << 32,
        ;
        counter = counter + low as u64;
        counter
    }

    /// Sets up a match in channel 1 to occur `us` microseconds from now,
    /// counting from the low half of the counter with 32-bit wrap-around.
    pub fn tick_in(&mut self, us: u32)
        ensures
            final(self)@ == old(self)@.armed(us),
    {
        self.registers.cs = self.registers.cs | 0b10;
        let current_lower: u32 = self.registers.clo;
        self.registers.compare[1] = current_lower.wrapping_add(us);
        assert(self.registers.compare =~= old(self)@.armed(us).compare);
    }
}

/// Returns the current time in microseconds, as `timer` counts it.
pub fn current_time(timer: &Timer) -> (now: u64)
    ensures
        now == timer@.counter(),
{
    timer.read()
}

/// A busy-wait in progress: the time at which it began and the number of
/// microseconds it has to last.
///
/// The wait itself is a loop around `is_over`: the caller reads the timer
/// again and again, keeping the processor busy, until `is_over` says that the
/// time has passed.
#[derive(Debug, Copy, Clone)]
pub struct SpinSleep {
    /// The time, in microseconds, at which the wait began.
    pub start: u64,
    /// The number of microseconds the wait has to last.
    pub us: u64,
}

impl SpinSleep {
    /// Whether the wait is over at the time that `timer` shows: whether
    /// more than the requested number of microseconds have been counted
    /// since it began. The counter does not run backwards, so `timer` must
    /// not show a time before the start of the wait.
    pub fn is_over(&self, timer: &Timer) -> (over: bool)
        requires
            timer@.counter() >= self.start,
        ensures
            over == (timer@.counter() - self.start > self.us),
    {
        let now = current_time(timer);
        let duration = now - self.start;
        duration > self.us
    }
}

/// Begins a busy-wait of `us` microseconds at the time that `timer` shows.
pub fn spin_sleep_us(timer: &Timer, us: u64) -> (sleep: SpinSleep)
    ensures
        sleep.start == timer@.counter(),
        sleep.us == us,
{
    let start = current_time(timer);
    SpinSleep { start, us }
}

/// Begins a busy-wait of `ms` milliseconds at the time that `timer` shows.
pub fn spin_sleep_ms(timer: &Timer, ms: u64) -> (sleep: SpinSleep)
    requires
        ms * 1000 <= u64::MAX,
    ensures
        sleep.start == timer@.counter(),
        sleep.us == ms * 1000,
{
    spin_sleep_us(timer, ms * 1000)
}

/// A channel that has been armed matches once. After `tick_in(us)` the
/// status bit of channel 1 is set, and while the low half of the counter
/// advances by any amount from `us` up to a full turn of its 32 bits, it
/// reaches the compare register at one point only: when exactly `us`
/// microseconds have been counted.
pub proof fn lemma_tick_matches_once(registers: Registers, us: u32, advance: int)
    requires
        us <= advance < 0x1_0000_0000,
    ensures
        registers.armed(us).cs & 0b10 == 0b10,
        forall|elapsed: int|
            0 <= elapsed <= advance ==> (#[trigger] registers.armed(us).matches_after(elapsed)
                <==> elapsed == us),
{
    let cs = registers.cs;
    assert((cs | 0b10) & 0b10 == 0b10) by (bit_vector);
}

} // verus!
