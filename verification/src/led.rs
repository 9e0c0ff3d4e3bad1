//! LEDs: the exclusive handle and the data register values that switch them.

use crate::util::{take_granted, take_step, take_transition, HandleState};
use vstd::prelude::*;

verus! {

/// GPIO4 data register bit of the blue LED (set: off).
pub const BLUE: u32 = 1 << 22;

/// GPIO4 data register bit of the white LED (set: off).
pub const WHITE: u32 = 1 << 21;

/// The data register value after switching off the LED on `bit`.
pub open spec fn dr_off(dr: u32, bit: u32) -> u32 {
    dr | bit
}

/// The data register value after switching on the LED on `bit`.
pub open spec fn dr_on(dr: u32, bit: u32) -> u32 {
    dr & !bit
}

/// The data register value after toggling the LED on `bit`.
pub open spec fn dr_toggle(dr: u32, bit: u32) -> u32 {
    if dr & bit == 0 {
        dr | bit
    } else {
        dr & !bit
    }
}

/// On-board LEDs.
pub struct Leds {
    /// Blue LED
    pub blue: Blue,
    /// White LED
    pub white: White,
}

impl Leds {
    /// Gets the exclusive handle to the LEDs. `gpio_available` says whether
    /// the GPIO4 peripheral could be claimed; it only matters on the first
    /// take.
    pub fn take(state: &mut HandleState, gpio_available: bool) -> (r: Option<Leds>)
        ensures
            *final(state) == take_transition(*old(state)).0,
            r is Some <==> take_granted(take_transition(*old(state)).1, gpio_available),
    {
        let step = take_step(state);
        match step {
            crate::util::TakeStep::First => if gpio_available {
                Some(Leds { blue: Blue { _private: () }, white: White { _private: () } })
            } else {
                None
            },
            crate::util::TakeStep::Again => Some(
                Leds { blue: Blue { _private: () }, white: White { _private: () } },
            ),
            crate::util::TakeStep::Refused => None,
        }
    }

    /// Releases the exclusive handle so any other context can take it.
    pub fn release(self, state: &mut HandleState)
        ensures
            *final(state) == HandleState::Free,
    {
        *state = HandleState::Free;
    }
}

/// Blue LED.
pub struct Blue {
    _private: (),
}

impl Blue {
    /// The data register value that turns the LED off.
    pub fn off(&self, dr: u32) -> (r: u32)
        ensures
            r == dr_off(dr, BLUE),
    {
        dr | BLUE
    }

    /// The data register value that turns the LED on.
    pub fn on(&self, dr: u32) -> (r: u32)
        ensures
            r == dr_on(dr, BLUE),
    {
        dr & !BLUE
    }

    /// The data register value that toggles the LED.
    pub fn toggle(&self, dr: u32) -> (r: u32)
        ensures
            r == dr_toggle(dr, BLUE),
    {
        if dr & BLUE == 0 {
            dr | BLUE
        } else {
            dr & !BLUE
        }
    }
}

/// White LED.
pub struct White {
    _private: (),
}

impl White {
    /// The data register value that turns the LED off.
    pub fn off(&self, dr: u32) -> (r: u32)
        ensures
            r == dr_off(dr, WHITE),
    {
        dr | WHITE
    }

    /// The data register value that turns the LED on.
    pub fn on(&self, dr: u32) -> (r: u32)
        ensures
            r == dr_on(dr, WHITE),
    {
        dr & !WHITE
    }

    /// The data register value that toggles the LED.
    pub fn toggle(&self, dr: u32) -> (r: u32)
        ensures
            r == dr_toggle(dr, WHITE),
    {
        if dr & WHITE == 0 {
            dr | WHITE
        } else {
            dr & !WHITE
        }
    }
}

/// Toggling an LED twice restores the register; toggling flips the LED's bit;
/// and no operation on one LED changes the other LED's bit.
pub proof fn law_led_toggle(dr: u32)
    by (bit_vector)
    ensures
        dr_toggle(dr_toggle(dr, BLUE), BLUE) == dr,
        dr_toggle(dr_toggle(dr, WHITE), WHITE) == dr,
        (dr_toggle(dr, BLUE) & BLUE == 0) != (dr & BLUE == 0),
        dr_on(dr, BLUE) & WHITE == dr & WHITE,
        dr_off(dr, BLUE) & WHITE == dr & WHITE,
        dr_toggle(dr, BLUE) & WHITE == dr & WHITE,
        dr_on(dr, WHITE) & BLUE == dr & BLUE,
        dr_off(dr, WHITE) & BLUE == dr & BLUE,
        dr_toggle(dr, WHITE) & BLUE == dr & BLUE,
        dr_on(dr, BLUE) & BLUE == 0,
        dr_off(dr, BLUE) & BLUE == BLUE,
{
}

} // verus!
