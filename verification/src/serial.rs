//! Serial interface: the exclusive handle and the decisions on the UART
//! registers.

use crate::util::{take_granted, take_step, take_transition, HandleState, TakeStep};
use vstd::prelude::*;

verus! {

/// USR1: receiver ready.
pub const UART_USR1_RRDY: u32 = 1 << 9;

/// USR1: transmitter ready.
pub const UART_USR1_TRDY: u32 = 1 << 13;

/// USR2: transmitter complete.
pub const UART_USR2_TXDC: u32 = 1 << 3;

/// Control register bit that enables the receive-ready interrupt.
pub const UART_RRDYEN: u32 = 1 << 9;

/// Events that can trigger an interrupt.
#[derive(Clone, Copy, PartialEq, Eq, Structural)]
pub enum Event {
    /// RxFIFO contains data
    ReceiveReady,
}

/// Handle to the serial interface.
pub struct Serial {
    _private: (),
}

impl Serial {
    /// Gets the exclusive handle to the serial interface. `uart_available`
    /// says whether the UART2 peripheral could be claimed; it only matters on
    /// the first take.
    pub fn take(state: &mut HandleState, uart_available: bool) -> (r: Option<Serial>)
        ensures
            *final(state) == take_transition(*old(state)).0,
            r is Some <==> take_granted(take_transition(*old(state)).1, uart_available),
    {
        match take_step(state) {
            TakeStep::First => if uart_available {
                Some(Serial { _private: () })
            } else {
                None
            },
            TakeStep::Again => Some(Serial { _private: () }),
            TakeStep::Refused => None,
        }
    }

    /// Lends a handle to `f`, even while another context owns the serial
    /// interface, and returns what `f` returns. The handle is only lent: it
    /// cannot be released or kept.
    pub fn borrow_unchecked<R, F: FnOnce(&Serial) -> R>(f: F) -> (r: R)
        requires
            forall|s: &Serial| f.requires((s,)),
        ensures
            exists|s: &Serial| f.ensures((s,), r),
    {
        let s = Serial { _private: () };
        f(&s)
    }

    /// Releases the exclusive handle so any other context can take it.
    pub fn release(self, state: &mut HandleState)
        ensures
            *final(state) == HandleState::Free,
    {
        *state = HandleState::Free;
    }

    /// The UCR1 value that enables the interrupt of `event`, computed from the
    /// UCR2 value read before it.
    pub fn listen(&self, ucr2: u32, event: Event) -> (r: u32)
        ensures
            r == ucr2 | UART_RRDYEN,
    {
        match event {
            Event::ReceiveReady => ucr2 | UART_RRDYEN,
        }
    }

    /// The received byte, given USR1 and the receive register; `None` when
    /// no data is available.
    pub fn read(&self, usr1: u32, urxd: u32) -> (r: Option<u8>)
        ensures
            r == if usr1 & UART_USR1_RRDY == 0 { None } else { Some(urxd as u8) },
    {
        if usr1 & UART_USR1_RRDY == 0 {
            None
        } else {
            Some(urxd as u8)
        }
    }

    /// Whether the transmitter can take the next byte.
    pub fn ready_to_write(&self, usr1: u32) -> (r: bool)
        ensures
            r == (usr1 & UART_USR1_TRDY != 0),
    {
        usr1 & UART_USR1_TRDY != 0
    }

    /// Whether all data has been transmitted.
    pub fn flushed(usr2: u32) -> (r: bool)
        ensures
            r == (usr2 & UART_USR2_TXDC != 0),
    {
        usr2 & UART_USR2_TXDC != 0
    }
}

} // verus!
