//! Pins and output lines: physical identity, logical level, pin mode, and the
//! push-pull output line abstraction whose only mutating operation is `toggle`.

use vstd::prelude::*;

verus! {

/// Number of pins on one GPIO port.
pub const PIN_COUNT: u8 = 16;

/// Name of a GPIO port.
#[derive(Clone, Copy, PartialEq, Eq, Structural, Debug)]
pub enum PortName {
    A,
    B,
    C,
    D,
    E,
    F,
}

/// Physical identity of one pin: port and pin number.  Fixed at configuration
/// time and never changed afterwards.
#[derive(Clone, Copy, PartialEq, Eq, Structural, Debug)]
pub struct PinId {
    pub port: PortName,
    pub pin: u8,
}

/// A pin identity is well formed when its pin number exists on the port.
pub open spec fn pin_id_wf(id: PinId) -> bool {
    id.pin < PIN_COUNT
}

/// Logical state of a digital output line.
#[derive(Clone, Copy, PartialEq, Eq, Structural, Debug)]
pub enum Level {
    Low,
    High,
}

/// The logical state after one toggle.
pub open spec fn flip(l: Level) -> Level {
    if l is Low {
        Level::High
    } else {
        Level::Low
    }
}

/// Toggling a line twice restores its original logical state.
pub proof fn lemma_toggle_twice_restores(l: Level)
    ensures
        flip(flip(l)) == l,
{
}

/// Configuration mode of one pin.  A pin leaves reset in input mode and is
/// transitioned to push-pull output exactly once, during startup.
#[derive(Clone, Copy, PartialEq, Eq, Structural, Debug)]
pub enum PinMode {
    Input,
    PushPullOutput,
}

/// One GPIO pin configured for push-pull digital output.  It is created only
/// by a pin-mode transition during startup and owned exclusively by the LED
/// handle that wraps it.
pub struct OutputLine {
    id: PinId,
    level: Level,
}

impl OutputLine {
    /// Physical identity of the line.
    pub closed spec fn id_spec(self) -> PinId {
        self.id
    }

    /// Current logical state of the line.
    pub closed spec fn level_spec(self) -> Level {
        self.level
    }

    /// A freshly configured output line drives low.
    pub(crate) fn new(id: PinId) -> (line: OutputLine)
        ensures
            line.id_spec() == id,
            line.level_spec() is Low,
    {
        OutputLine { id, level: Level::Low }
    }

    /// Flip the logical output state; the physical identity never changes.
    pub fn toggle(&mut self)
        ensures
            final(self).id_spec() == old(self).id_spec(),
            final(self).level_spec() == flip(old(self).level_spec()),
    {
        self.level = match self.level {
            Level::Low => Level::High,
            Level::High => Level::Low,
        };
    }

    /// Read the current logical state.
    pub fn level(&self) -> (l: Level)
        ensures
            l == self.level_spec(),
    {
        self.level
    }

    /// Read the physical identity.
    pub fn id(&self) -> (r: PinId)
        ensures
            r == self.id_spec(),
    {
        self.id
    }
}

} // verus!
