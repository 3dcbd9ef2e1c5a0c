//! The one-time startup sequence: peripheral acquisition, clock freeze, and
//! the pin-mode transitions that produce the four output lines.
//!
//! Peripheral ownership can be claimed at most once per process lifetime; a
//! second claim is an unrecoverable initialization error, and the only
//! defined response to it is a fatal halt — the caller's duty, not the
//! library's, since no recovery path exists.

use vstd::prelude::*;

use crate::clock::{Clocks, Delay, RccRegs, SysTick, MS_PER_S};
use crate::gpio::{GpioPort, InterruptCtl, RawPort};
use crate::led::{Led, LedSet, LED_COUNT};
use crate::pins::{PinId, PinMode, PortName, PIN_COUNT};

verus! {

/// Target system clock frequency in megahertz.
pub const SYSCLK_MHZ: u32 = 8;

/// Target system clock frequency in hertz.
pub const SYSCLK_HZ: u32 = 8_000_000;

/// Pin number of the orange LED on port C.
pub const ORANGE_PIN: u8 = 8;

/// Pin number of the green LED on port C.
pub const GREEN_PIN: u8 = 9;

/// Pin number of the red LED on port C.
pub const RED_PIN: u8 = 6;

/// Pin number of the blue LED on port C.
pub const BLUE_PIN: u8 = 7;

/// The unrecoverable initialization error: peripheral ownership was already
/// claimed.  It can only arise from a programming defect (a second entry),
/// never from a transient hardware condition.
#[derive(Clone, Copy, PartialEq, Eq, Structural, Debug)]
pub enum InitError {
    AlreadyTaken,
}

/// Which peripheral register blocks have been handed out since reset.  The
/// machine starts with both available; each can be taken at most once.
pub struct Board {
    device_taken: bool,
    core_taken: bool,
}

/// The device peripheral blocks used by the program: the clock control block
/// and the LED port.
pub struct DeviceParts {
    pub rcc: RccRegs,
    pub gpioc: RawPort,
}

/// The core peripheral blocks used by the program: the tick timer and the
/// processor's interrupt-mask state.
pub struct CoreParts {
    pub syst: SysTick,
    pub ints: InterruptCtl,
}

/// Taking the device peripherals succeeds exactly when nobody holds them yet.
pub open spec fn take_device_succeeds(b: Board) -> bool {
    !b.device_taken_spec()
}

/// Taking the core peripherals succeeds exactly when nobody holds them yet.
pub open spec fn take_core_succeeds(b: Board) -> bool {
    !b.core_taken_spec()
}

/// The whole startup sequence succeeds exactly when both peripheral blocks
/// are still available.
pub open spec fn startup_succeeds(b: Board) -> bool {
    take_device_succeeds(b) && take_core_succeeds(b)
}

/// Peripheral acquisition happens at most once per process lifetime: once
/// the device peripherals have been handed out — as they are after any run
/// of the startup sequence, successful or not — a further acquisition, and
/// with it a further startup, must yield the unrecoverable initialization
/// error.
pub proof fn lemma_acquisition_at_most_once(after: Board)
    requires
        after.device_taken_spec(),
    ensures
        !take_device_succeeds(after),
        !startup_succeeds(after),
{
}

impl Board {
    /// Whether the device peripherals have been handed out.
    pub closed spec fn device_taken_spec(self) -> bool {
        self.device_taken
    }

    /// Whether the core peripherals have been handed out.
    pub closed spec fn core_taken_spec(self) -> bool {
        self.core_taken
    }

    /// The machine as the runtime hands it to the entry point after reset:
    /// no peripheral has been claimed yet.
    pub fn new() -> (b: Board)
        ensures
            !b.device_taken_spec(),
            !b.core_taken_spec(),
    {
        Board { device_taken: false, core_taken: false }
    }

    /// Claim exclusive ownership of the device peripherals.  The claim
    /// succeeds if and only if they were still available, and they count as
    /// handed out from here on.
    pub fn take_device(&mut self) -> (r: Result<DeviceParts, InitError>)
        ensures
            r is Ok <==> take_device_succeeds(*old(self)),
            final(self).device_taken_spec(),
            final(self).core_taken_spec() == old(self).core_taken_spec(),
            r matches Ok(parts) ==> parts.gpioc.name_spec() == PortName::C,
            r matches Err(e) ==> e == InitError::AlreadyTaken,
    {
        if self.device_taken {
            Err(InitError::AlreadyTaken)
        } else {
            self.device_taken = true;
            Ok(DeviceParts { rcc: RccRegs::new(), gpioc: RawPort::new(PortName::C) })
        }
    }

    /// Claim exclusive ownership of the core peripherals.  The claim
    /// succeeds if and only if they were still available; the interrupt-mask
    /// state comes out unmasked, as the processor leaves reset.
    pub fn take_core(&mut self) -> (r: Result<CoreParts, InitError>)
        ensures
            r is Ok <==> take_core_succeeds(*old(self)),
            final(self).core_taken_spec(),
            final(self).device_taken_spec() == old(self).device_taken_spec(),
            r matches Ok(parts) ==> !parts.ints.is_masked(),
            r matches Err(e) ==> e == InitError::AlreadyTaken,
    {
        if self.core_taken {
            Err(InitError::AlreadyTaken)
        } else {
            self.core_taken = true;
            Ok(CoreParts { syst: SysTick::new(), ints: InterruptCtl::new() })
        }
    }
}

/// Everything the startup sequence produces: the four LEDs, the delay
/// source, the configured port, the interrupt-mask state, and the frozen
/// clocks.
pub struct System {
    pub leds: LedSet,
    pub delay: Delay,
    pub port: GpioPort,
    pub ints: InterruptCtl,
    pub clocks: Clocks,
}

/// Identity of a pin on port C.
pub open spec fn port_c_pin(pin: u8) -> PinId {
    PinId { port: PortName::C, pin }
}

/// The state a freshly started system is in: clocks frozen at the target
/// frequency, delay calibrated against them with no request recorded yet,
/// interrupts unmasked again, exactly the four LED pins in push-pull output
/// mode, and the LEDs bound in display order — orange, green, red, blue —
/// all driving low.
pub open spec fn initial_system(sys: System) -> bool {
    &&& sys.clocks.sysclk_hz_spec() == SYSCLK_HZ
    &&& sys.delay.cycles_per_ms_spec() == SYSCLK_HZ / MS_PER_S
    &&& sys.delay.requests_spec() == Seq::<u32>::empty()
    &&& !sys.ints.is_masked()
    &&& sys.port.wf()
    &&& sys.port.name_spec() == PortName::C
    &&& forall|p: int|
        0 <= p < PIN_COUNT ==> sys.port.mode_of(p) == (if p == ORANGE_PIN || p == GREEN_PIN
            || p == RED_PIN || p == BLUE_PIN {
            PinMode::PushPullOutput
        } else {
            PinMode::Input
        })
    &&& sys.leds.ids() == seq![
        port_c_pin(ORANGE_PIN),
        port_c_pin(GREEN_PIN),
        port_c_pin(RED_PIN),
        port_c_pin(BLUE_PIN),
    ]
    &&& forall|j: int| 0 <= j < LED_COUNT ==> sys.leds.levels()[j] is Low
}

/// The startup sequence.  It runs before anything else and produces the
/// system the driver loop runs on: it claims both peripheral blocks,
/// configures and freezes the clock at the target frequency, builds the
/// delay source, and transitions each of the four LED pins into push-pull
/// output mode — each transition inside its own interrupt-masked critical
/// section, released immediately afterwards.  It succeeds if and only if no
/// peripheral had been claimed before; otherwise it reports the
/// unrecoverable initialization error and touches nothing else.
pub fn startup(board: &mut Board) -> (r: Result<System, InitError>)
    ensures
        r is Ok <==> startup_succeeds(*old(board)),
        r matches Ok(sys) ==> initial_system(sys),
        r matches Err(e) ==> e == InitError::AlreadyTaken,
        final(board).device_taken_spec(),
        old(board).device_taken_spec() ==> final(board).core_taken_spec() == old(
            board,
        ).core_taken_spec(),
        !old(board).device_taken_spec() ==> final(board).core_taken_spec(),
{
    let parts = match board.take_device() {
        Ok(parts) => parts,
        Err(e) => {
            return Err(e);
        },
    };
    let core = match board.take_core() {
        Ok(core) => core,
        Err(e) => {
            return Err(e);
        },
    };

    let clocks = parts.rcc.configure().sysclk_mhz(SYSCLK_MHZ).freeze();
    let mut port = parts.gpioc.split(&clocks);
    let delay = Delay::new(core.syst, &clocks);
    let mut ints = core.ints;

    ints.mask();
    let orange = port.configure_push_pull(ORANGE_PIN, &ints);
    ints.unmask();

    ints.mask();
    let green = port.configure_push_pull(GREEN_PIN, &ints);
    ints.unmask();

    ints.mask();
    let red = port.configure_push_pull(RED_PIN, &ints);
    ints.unmask();

    ints.mask();
    let blue = port.configure_push_pull(BLUE_PIN, &ints);
    ints.unmask();

    let leds = LedSet::new(Led::new(orange), Led::new(green), Led::new(red), Led::new(blue));

    Ok(System { leds, delay, port, ints, clocks })
}

} // verus!
