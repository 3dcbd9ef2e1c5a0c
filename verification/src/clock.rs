//! Clock configuration and the busy-wait delay source.
//!
//! The reset-and-clock-control block is configured once for a fixed system
//! clock frequency and then frozen: the resulting `Clocks` value is immutable
//! evidence of the running frequency.  The delay source counts processor
//! cycles against that frequency; its model records, for every request, how
//! many whole milliseconds were asked for and how many cycles the busy-wait
//! spans.

use vstd::prelude::*;

verus! {

/// Milliseconds per second; fixes the cycles-per-millisecond calibration.
pub const MS_PER_S: u32 = 1000;

/// Multiplier from megahertz to hertz.
pub const HZ_PER_MHZ: u32 = 1_000_000;

/// The default system clock frequency in hertz: the internal oscillator the
/// device wakes up on, 8 MHz.
pub const RESET_SYSCLK_HZ: u32 = 8_000_000;

/// The reset-and-clock-control block, as handed out by the one-time device
/// acquisition.  Its only use is to start a clock configuration.
pub struct RccRegs {
}

impl RccRegs {
    pub(crate) fn new() -> RccRegs {
        RccRegs {}
    }

    /// Begin configuring the clock tree.  Until a target is chosen the
    /// configuration aims at the reset frequency.
    pub fn configure(self) -> (setup: ClockSetup)
        ensures
            setup.target_hz_spec() == RESET_SYSCLK_HZ,
    {
        ClockSetup { target_hz: RESET_SYSCLK_HZ }
    }
}

/// An in-progress clock configuration: the chosen target frequency for the
/// system clock, not yet applied to the hardware.
pub struct ClockSetup {
    target_hz: u32,
}

impl ClockSetup {
    /// The frequency this configuration will freeze at, in hertz.
    pub closed spec fn target_hz_spec(self) -> u32 {
        self.target_hz
    }

    /// Choose the system clock frequency in megahertz.
    pub fn sysclk_mhz(self, mhz: u32) -> (setup: ClockSetup)
        requires
            mhz * HZ_PER_MHZ <= u32::MAX,
        ensures
            setup.target_hz_spec() == mhz * HZ_PER_MHZ,
    {
        ClockSetup { target_hz: mhz * HZ_PER_MHZ }
    }

    /// Apply the configuration and freeze it.  Freezing never fails under
    /// valid hardware, and the frequency is immutable from here on.
    pub fn freeze(self) -> (clocks: Clocks)
        ensures
            clocks.sysclk_hz_spec() == self.target_hz_spec(),
    {
        Clocks { sysclk_hz: self.target_hz }
    }
}

/// The frozen clock configuration: the running system clock frequency.
pub struct Clocks {
    sysclk_hz: u32,
}

impl Clocks {
    /// The system clock frequency in hertz.
    pub closed spec fn sysclk_hz_spec(self) -> u32 {
        self.sysclk_hz
    }

    /// Read the system clock frequency.
    pub fn sysclk_hz(&self) -> (hz: u32)
        ensures
            hz == self.sysclk_hz_spec(),
    {
        self.sysclk_hz
    }
}

/// The system tick timer: the hardware cycle counter consumed by the delay
/// source.  Handed out once with the core peripherals.
pub struct SysTick {
}

impl SysTick {
    pub(crate) fn new() -> SysTick {
        SysTick {}
    }
}

/// A blocking millisecond delay over the cycle counter, calibrated against
/// the frozen clock configuration.  The model keeps the calibration and the
/// sequence of requested durations; the busy-wait itself is the hardware's.
pub struct Delay {
    timer: SysTick,
    cycles_per_ms: u32,
    requests: Vec<u32>,
}

impl Delay {
    /// Cycles the counter advances per millisecond.
    pub closed spec fn cycles_per_ms_spec(self) -> u32 {
        self.cycles_per_ms
    }

    /// Every duration requested so far, in order, in milliseconds.
    pub closed spec fn requests_spec(self) -> Seq<u32> {
        self.requests@
    }

    /// Build the delay source from the tick timer and the frozen clocks.
    pub fn new(timer: SysTick, clocks: &Clocks) -> (delay: Delay)
        ensures
            delay.cycles_per_ms_spec() == clocks.sysclk_hz_spec() / MS_PER_S,
            delay.requests_spec() == Seq::<u32>::empty(),
    {
        Delay { timer, cycles_per_ms: clocks.sysclk_hz() / MS_PER_S, requests: Vec::new() }
    }

    /// Read the calibration: cycles per millisecond.
    pub fn cycles_per_ms(&self) -> (c: u32)
        ensures
            c == self.cycles_per_ms_spec(),
    {
        self.cycles_per_ms
    }

    /// How many delay requests have been made so far.
    pub fn request_count(&self) -> (n: usize)
        ensures
            n == self.requests_spec().len(),
    {
        self.requests.len()
    }

    /// The duration of the `i`-th delay request, in milliseconds.
    pub fn request_at(&self, i: usize) -> (ms: u32)
        requires
            i < self.requests_spec().len(),
        ensures
            ms == self.requests_spec()[i as int],
    {
        self.requests[i]
    }

    /// Block for the requested number of whole milliseconds, then return.
    /// The result is the span of the busy-wait in processor cycles.
    pub fn delay_ms(&mut self, ms: u32) -> (cycles: u64)
        ensures
            cycles == ms as u64 * old(self).cycles_per_ms_spec() as u64,
            final(self).cycles_per_ms_spec() == old(self).cycles_per_ms_spec(),
            final(self).requests_spec() == old(self).requests_spec().push(ms),
    {
        proof {
            assert(ms as int * self.cycles_per_ms as int <= u32::MAX as int * u32::MAX as int)
                by (nonlinear_arith)
                requires
                    ms <= u32::MAX,
                    self.cycles_per_ms <= u32::MAX,
            ;
        }
        let cycles: u64 = (ms as u64) * (self.cycles_per_ms as u64);
        self.requests.push(ms);
        cycles
    }
}

} // verus!
