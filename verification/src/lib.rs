//! Verified core of a four-LED round-robin blinker.
//!
//! The library models the whole control logic of the device: one-time
//! acquisition of the peripherals, clock configuration, pin-mode transitions
//! under an interrupt-masked critical section, an ordered set of four output
//! lines, a busy-wait delay source calibrated against the frozen clock, and
//! the round-robin driver that toggles one LED per iteration.  The hardware
//! binding itself (register access, the real busy-wait) lives outside the
//! library; everything the program decides is verified here.

pub mod clock;
pub mod driver;
pub mod gpio;
pub mod led;
pub mod pins;
pub mod startup;
