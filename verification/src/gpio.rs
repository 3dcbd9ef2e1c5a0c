//! The GPIO port configuration model and the interrupt-mask discipline.
//!
//! A port-wide configuration register is not safely mutable concurrently with
//! interrupt handlers that might also touch the port, so every pin-mode
//! transition must happen strictly inside an interrupt-masked critical
//! section.  The discipline is stated in the contracts: `configure_push_pull`
//! requires the interrupts to be masked, while `observe` — the view an
//! interrupt handler could take of the configuration register — requires them
//! to be unmasked.  A handler therefore never sees a transition in progress:
//! every state it can observe is the atomic result of completed transitions.

use vstd::prelude::*;

use crate::clock::Clocks;
use crate::pins::{pin_id_wf, OutputLine, PinId, PinMode, PortName, PIN_COUNT};

verus! {

/// One port's register block as handed out by the device acquisition, not
/// yet split into its pins.
pub struct RawPort {
    name: PortName,
}

impl RawPort {
    /// Name of the port.
    pub closed spec fn name_spec(self) -> PortName {
        self.name
    }

    pub(crate) fn new(name: PortName) -> (port: RawPort)
        ensures
            port.name_spec() == name,
    {
        RawPort { name }
    }

    /// Enable the port against the frozen clocks and split it into its pins.
    /// Every pin is still in its reset state, input mode.
    pub fn split(self, _clocks: &Clocks) -> (port: GpioPort)
        ensures
            port.wf(),
            port.name_spec() == self.name_spec(),
            forall|p: int| 0 <= p < PIN_COUNT ==> port.mode_of(p) is Input,
    {
        GpioPort::new(self.name)
    }
}

/// The processor's interrupt-mask state.  Masking it opens a critical
/// section; unmasking it closes the section and must follow on every exit
/// path.  There is exactly one such state per processor; it leaves reset
/// unmasked and is handed out once with the core peripherals.
pub struct InterruptCtl {
    masked: bool,
}

impl InterruptCtl {
    /// Whether interrupts are currently masked.
    pub closed spec fn is_masked(self) -> bool {
        self.masked
    }

    /// Interrupts are unmasked when the processor leaves reset.
    pub(crate) fn new() -> (ctl: InterruptCtl)
        ensures
            !ctl.is_masked(),
    {
        InterruptCtl { masked: false }
    }

    /// Read the current mask state.
    pub fn masked(&self) -> (m: bool)
        ensures
            m == self.is_masked(),
    {
        self.masked
    }

    /// Enter the critical section.  Nesting is not modeled: the section must
    /// be released before it can be acquired again.
    pub fn mask(&mut self)
        requires
            !old(self).is_masked(),
        ensures
            final(self).is_masked(),
    {
        self.masked = true;
    }

    /// Leave the critical section.
    pub fn unmask(&mut self)
        requires
            old(self).is_masked(),
        ensures
            !final(self).is_masked(),
    {
        self.masked = false;
    }
}

/// The shared configuration register of one GPIO port: the mode of each of
/// its pins.
pub struct GpioPort {
    name: PortName,
    modes: Vec<PinMode>,
}

impl GpioPort {
    /// The port holds one mode per pin.
    pub closed spec fn wf(self) -> bool {
        self.modes@.len() == PIN_COUNT
    }

    /// Name of the port.
    pub closed spec fn name_spec(self) -> PortName {
        self.name
    }

    /// Mode of the pin with the given number.
    pub closed spec fn mode_of(self, pin: int) -> PinMode {
        self.modes@[pin]
    }

    /// A port leaves reset with every pin in input mode.
    pub(crate) fn new(name: PortName) -> (port: GpioPort)
        ensures
            port.wf(),
            port.name_spec() == name,
            forall|p: int| 0 <= p < PIN_COUNT ==> port.mode_of(p) is Input,
    {
        let mut modes: Vec<PinMode> = Vec::new();
        let mut i: u8 = 0;
        while i < PIN_COUNT
            invariant
                i <= PIN_COUNT,
                modes@.len() == i,
                forall|p: int| 0 <= p < i ==> modes@[p] is Input,
            decreases PIN_COUNT - i,
        {
            modes.push(PinMode::Input);
            i = i + 1;
        }
        GpioPort { name, modes }
    }

    /// Transition one pin into push-pull output mode and hand out the freshly
    /// configured line.  The transition mutates the shared configuration
    /// register, so it demands the interrupt-masked critical section; it is
    /// atomic: the register goes from the old state straight to the new one.
    /// The pin must still be in input mode — each pin is configured at most
    /// once, and the line returned is its only handle.
    pub fn configure_push_pull(&mut self, pin: u8, ints: &InterruptCtl) -> (line: OutputLine)
        requires
            old(self).wf(),
            pin < PIN_COUNT,
            ints.is_masked(),
            old(self).mode_of(pin as int) is Input,
        ensures
            final(self).wf(),
            final(self).name_spec() == old(self).name_spec(),
            final(self).mode_of(pin as int) is PushPullOutput,
            forall|p: int|
                0 <= p < PIN_COUNT && p != pin ==> final(self).mode_of(p) == old(self).mode_of(p),
            line.id_spec() == (PinId { port: old(self).name_spec(), pin }),
            line.level_spec() is Low,
            pin_id_wf(line.id_spec()),
    {
        self.modes[pin as usize] = PinMode::PushPullOutput;
        OutputLine::new(PinId { port: self.name, pin })
    }

    /// The view an interrupt handler could take of the configuration
    /// register.  Interrupt handlers run only while interrupts are unmasked,
    /// so this observation is available only outside the critical section.
    pub fn observe(&self, pin: u8, ints: &InterruptCtl) -> (m: PinMode)
        requires
            self.wf(),
            pin < PIN_COUNT,
            !ints.is_masked(),
        ensures
            m == self.mode_of(pin as int),
    {
        self.modes[pin as usize]
    }
}

} // verus!
