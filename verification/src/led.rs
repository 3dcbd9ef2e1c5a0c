//! LED handles and the ordered set of four LEDs.
//!
//! An `Led` is a thin wrapper exposing only a toggle capability over one
//! output line, so the driver loop treats all four LEDs identically.  The
//! `LedSet` holds them in their fixed, order-significant sequence: orange,
//! green, red, blue.

use core::convert::Infallible;
use vstd::prelude::*;

use crate::pins::{flip, Level, OutputLine, PinId};

verus! {

/// Number of LEDs driven by the loop.
pub const LED_COUNT: usize = 4;

/// Position of the orange LED in the set.
pub const ORANGE_INDEX: usize = 0;

/// Position of the green LED in the set.
pub const GREEN_INDEX: usize = 1;

/// Position of the red LED in the set.
pub const RED_INDEX: usize = 2;

/// Position of the blue LED in the set.
pub const BLUE_INDEX: usize = 3;

/// A handle over one output line, exposing exactly one operation: toggle.
/// One line is owned per handle, for the life of the program.
pub struct Led {
    line: OutputLine,
}

impl Led {
    /// Identity of the line behind the handle.
    pub closed spec fn id_spec(self) -> PinId {
        self.line.id_spec()
    }

    /// Logical state of the line behind the handle.
    pub closed spec fn level_spec(self) -> Level {
        self.line.level_spec()
    }

    /// Wrap an output line.  The handle takes exclusive ownership.
    pub fn new(line: OutputLine) -> (led: Led)
        ensures
            led.id_spec() == line.id_spec(),
            led.level_spec() == line.level_spec(),
    {
        Led { line }
    }

    /// Flip the LED's logical state.  Failure is impossible: the error type
    /// is uninhabited and the result is always `Ok`.
    pub fn toggle(&mut self) -> (r: Result<(), Infallible>)
        ensures
            r is Ok,
            final(self).id_spec() == old(self).id_spec(),
            final(self).level_spec() == flip(old(self).level_spec()),
    {
        self.line.toggle();
        Ok(())
    }
}

/// The four LEDs in their fixed order: orange, green, red, blue.  The set is
/// built once at startup and its size and membership never change.
pub struct LedSet {
    orange: Led,
    green: Led,
    red: Led,
    blue: Led,
}

impl LedSet {
    /// The logical state of each LED, by position.
    pub closed spec fn levels(self) -> Seq<Level> {
        seq![
            self.orange.level_spec(),
            self.green.level_spec(),
            self.red.level_spec(),
            self.blue.level_spec(),
        ]
    }

    /// The physical identity of each LED's line, by position.
    pub closed spec fn ids(self) -> Seq<PinId> {
        seq![
            self.orange.id_spec(),
            self.green.id_spec(),
            self.red.id_spec(),
            self.blue.id_spec(),
        ]
    }

    /// The set always holds exactly four LEDs.
    pub proof fn lemma_len(self)
        ensures
            self.levels().len() == LED_COUNT,
            self.ids().len() == LED_COUNT,
    {
    }

    /// Build the set from the four handles, in display order.
    pub fn new(orange: Led, green: Led, red: Led, blue: Led) -> (set: LedSet)
        ensures
            set.levels() == seq![
                orange.level_spec(),
                green.level_spec(),
                red.level_spec(),
                blue.level_spec(),
            ],
            set.ids() == seq![orange.id_spec(), green.id_spec(), red.id_spec(), blue.id_spec()],
    {
        LedSet { orange, green, red, blue }
    }

    /// Number of LEDs in the set.
    pub fn len(&self) -> (n: usize)
        ensures
            n == LED_COUNT,
            n == self.levels().len(),
    {
        4
    }

    /// Toggle the LED at the given position.  Exactly that LED's logical
    /// state flips; identities and every other LED are untouched.  Failure is
    /// impossible and the result is always `Ok`.
    pub fn toggle_at(&mut self, i: usize) -> (r: Result<(), Infallible>)
        requires
            i < LED_COUNT,
        ensures
            r is Ok,
            final(self).levels() == old(self).levels().update(
                i as int,
                flip(old(self).levels()[i as int]),
            ),
            final(self).ids() == old(self).ids(),
    {
        let r = if i == 0 {
            self.orange.toggle()
        } else if i == 1 {
            self.green.toggle()
        } else if i == 2 {
            self.red.toggle()
        } else {
            self.blue.toggle()
        };
        proof {
            assert(self.levels() =~= old(self).levels().update(
                i as int,
                flip(old(self).levels()[i as int]),
            ));
            assert(self.ids() =~= old(self).ids());
        }
        r
    }

    /// Read the logical state of the LED at the given position.
    pub fn level_at(&self, i: usize) -> (l: Level)
        requires
            i < LED_COUNT,
        ensures
            l == self.levels()[i as int],
    {
        if i == 0 {
            self.orange.line.level()
        } else if i == 1 {
            self.green.line.level()
        } else if i == 2 {
            self.red.line.level()
        } else {
            self.blue.line.level()
        }
    }

    /// Read the physical identity of the LED at the given position.
    pub fn id_at(&self, i: usize) -> (id: PinId)
        requires
            i < LED_COUNT,
        ensures
            id == self.ids()[i as int],
    {
        if i == 0 {
            self.orange.line.id()
        } else if i == 1 {
            self.green.line.id()
        } else if i == 2 {
            self.red.line.id()
        } else {
            self.blue.line.id()
        }
    }
}

} // verus!
