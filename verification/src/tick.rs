//! The tick driver: configuration of the hardware countdown timer that
//! fires the periodic interrupt driving preemption.
//!
//! The verified core tracks the timer's configuration surface as plain
//! values — reload value, clock source, counter enable and interrupt
//! enable — and decides what each field must be. The surrounding runtime
//! copies the decided configuration into the memory-mapped peripheral
//! registers, which the core never touches itself.

use vstd::prelude::*;

verus! {

/// Clock cycles between ticks in the reference configuration: with the
/// core clock as source, the counter expires every 10,000 cycles, a
/// 10 kHz tick on the reference part.
pub const TICK_CLOCK_CYCLES: u32 = 10_000;

/// The countdown timer's selectable clock source.
#[derive(Debug, PartialEq, Eq, Structural, Clone, Copy)]
pub enum ClockSource {
    /// The processor's core clock.
    Core,
    /// The vendor-provided external reference clock.
    External,
}

/// The countdown timer's configuration surface: the four fields the tick
/// driver decides, plus the live counter value that configuring resets.
pub struct SysTick {
    reload: u32,
    current: u32,
    clock_source: ClockSource,
    counter_enabled: bool,
    interrupt_enabled: bool,
}

impl SysTick {
    /// Cycles loaded into the counter each time it expires.
    pub closed spec fn spec_reload(&self) -> u32 {
        self.reload
    }

    /// The counter's current value.
    pub closed spec fn spec_current(&self) -> u32 {
        self.current
    }

    /// The selected clock source.
    pub closed spec fn spec_clock_source(&self) -> ClockSource {
        self.clock_source
    }

    /// Whether the counter is counting.
    pub closed spec fn spec_counter_enabled(&self) -> bool {
        self.counter_enabled
    }

    /// Whether the counter's interrupt line is enabled.
    pub closed spec fn spec_interrupt_enabled(&self) -> bool {
        self.interrupt_enabled
    }

    /// A configured tick source: the counter runs and its expiry raises
    /// the interrupt that forces a context switch.
    pub open spec fn is_armed(&self) -> bool {
        self.spec_counter_enabled() && self.spec_interrupt_enabled()
    }

    /// The timer as found at reset: disarmed, cleared, driven by the
    /// core clock.
    pub fn new() -> (t: SysTick)
        ensures
            t.spec_reload() == 0,
            t.spec_current() == 0,
            t.spec_clock_source() == ClockSource::Core,
            !t.spec_counter_enabled(),
            !t.spec_interrupt_enabled(),
            !t.is_armed(),
    {
        SysTick {
            reload: 0,
            current: 0,
            clock_source: ClockSource::Core,
            counter_enabled: false,
            interrupt_enabled: false,
        }
    }

    /// Cycles loaded into the counter each time it expires.
    pub fn reload(&self) -> (r: u32)
        ensures
            r == self.spec_reload(),
    {
        self.reload
    }

    /// The counter's current value.
    pub fn current(&self) -> (r: u32)
        ensures
            r == self.spec_current(),
    {
        self.current
    }

    /// The selected clock source.
    pub fn clock_source(&self) -> (r: ClockSource)
        ensures
            r == self.spec_clock_source(),
    {
        self.clock_source
    }

    /// Whether the counter is counting.
    pub fn counter_enabled(&self) -> (r: bool)
        ensures
            r == self.spec_counter_enabled(),
    {
        self.counter_enabled
    }

    /// Whether the counter's interrupt line is enabled.
    pub fn interrupt_enabled(&self) -> (r: bool)
        ensures
            r == self.spec_interrupt_enabled(),
    {
        self.interrupt_enabled
    }

    /// Whether the timer is armed as a tick source.
    pub fn armed(&self) -> (r: bool)
        ensures
            r == self.is_armed(),
    {
        self.counter_enabled && self.interrupt_enabled
    }

    /// Select the clock the counter runs on. Nothing else changes.
    pub fn set_clock_source(&mut self, source: ClockSource)
        ensures
            final(self).spec_clock_source() == source,
            final(self).spec_reload() == old(self).spec_reload(),
            final(self).spec_current() == old(self).spec_current(),
            final(self).spec_counter_enabled() == old(self).spec_counter_enabled(),
            final(self).spec_interrupt_enabled() == old(self).spec_interrupt_enabled(),
    {
        self.clock_source = source;
    }

    /// Arm the tick source: set the reload value so the counter expires
    /// every `clock_cycles` cycles, clear the current count, and enable
    /// both the counter and its interrupt line. The clock source is left
    /// as selected.
    pub fn configure(&mut self, clock_cycles: u32)
        ensures
            final(self).spec_reload() == clock_cycles,
            final(self).spec_current() == 0,
            final(self).spec_clock_source() == old(self).spec_clock_source(),
            final(self).spec_counter_enabled(),
            final(self).spec_interrupt_enabled(),
            final(self).is_armed(),
    {
        self.reload = clock_cycles;
        self.current = 0;
        self.counter_enabled = true;
        self.interrupt_enabled = true;
    }
}

} // verus!
