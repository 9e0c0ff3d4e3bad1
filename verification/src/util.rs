//! Arithmetic helpers, the step of a timed wait, and the exclusive handle
//! state machine.

use crate::time::{ticks_secs, ticks_subsec_nanos, Instant};
use vstd::prelude::*;

verus! {

/// Rounds `n` down to a multiple of `m`.
pub fn round_down(n: usize, m: usize) -> (r: usize)
    requires
        m > 0,
    ensures
        r == n - n % m,
        r % m == 0,
        r <= n,
        n - r < m,
{
    proof {
        vstd::arithmetic::div_mod::lemma_fundamental_div_mod(n as int, m as int);
        vstd::arithmetic::div_mod::lemma_mod_multiples_basic((n / m) as int, m as int);
        vstd::arithmetic::mul::lemma_mul_is_commutative((n / m) as int, m as int);
    }
    n - (n % m)
}

/// What waiting for a condition does next.
#[derive(Clone, Copy, PartialEq, Eq, Structural)]
pub enum WaitStep {
    /// The condition holds: the wait succeeded.
    Done,
    /// The condition does not hold and the timeout has passed: give up.
    TimedOut,
    /// Check the condition again.
    Continue,
}

/// Whether a duration of `secs` seconds and `nanos` nanoseconds is longer
/// than one of `limit_secs` and `limit_nanos` (both with the nanoseconds
/// below a second): seconds compare first.
pub open spec fn longer_than(secs: u64, nanos: u32, limit_secs: u64, limit_nanos: u32) -> bool {
    secs > limit_secs || (secs == limit_secs && nanos > limit_nanos)
}

/// One step of waiting for a condition with a timeout: `cond` is the
/// condition just checked, `start` the instant the wait began, `now` the
/// current one, and the timeout is `timeout_secs` seconds and
/// `timeout_nanos` nanoseconds.
pub fn wait_step(cond: bool, start: Instant, now: Instant, timeout_secs: u64, timeout_nanos: u32) -> (r:
    WaitStep)
    requires
        start.ticks() <= now.ticks(),
    ensures
        r == if cond {
            WaitStep::Done
        } else if longer_than(
            ticks_secs((now.ticks() - start.ticks()) as u64),
            ticks_subsec_nanos((now.ticks() - start.ticks()) as u64),
            timeout_secs,
            timeout_nanos,
        ) {
            WaitStep::TimedOut
        } else {
            WaitStep::Continue
        },
{
    if cond {
        return WaitStep::Done;
    }
    let (secs, nanos) = start.elapsed_parts(now);
    if secs > timeout_secs || (secs == timeout_secs && nanos > timeout_nanos) {
        WaitStep::TimedOut
    } else {
        WaitStep::Continue
    }
}

} // verus!

verus! {

/// Where an exclusively owned handle stands.
#[derive(Clone, Copy, PartialEq, Eq, Structural)]
pub enum HandleState {
    /// Never taken: the peripheral behind it has not been claimed yet.
    Never,
    /// Currently taken.
    Taken,
    /// Released and free to take again.
    Free,
}

/// What a take attempt leads to.
#[derive(Clone, Copy, PartialEq, Eq, Structural)]
pub enum TakeStep {
    /// First take: the handle is granted if the peripheral can be claimed.
    First,
    /// The released handle is granted again.
    Again,
    /// The handle is currently taken: refused.
    Refused,
}

/// The transition of a take attempt.
pub open spec fn take_transition(state: HandleState) -> (HandleState, TakeStep) {
    match state {
        HandleState::Never => (HandleState::Taken, TakeStep::First),
        HandleState::Free => (HandleState::Taken, TakeStep::Again),
        HandleState::Taken => (HandleState::Taken, TakeStep::Refused),
    }
}

/// Attempts to take the handle: every state but `Taken` moves to `Taken`.
pub fn take_step(state: &mut HandleState) -> (r: TakeStep)
    ensures
        (*final(state), r) == take_transition(*old(state)),
{
    match *state {
        HandleState::Never => {
            *state = HandleState::Taken;
            TakeStep::First
        },
        HandleState::Free => {
            *state = HandleState::Taken;
            TakeStep::Again
        },
        HandleState::Taken => TakeStep::Refused,
    }
}

/// Whether a take attempt hands out the handle, given whether the peripheral
/// could be claimed on the first take.
pub open spec fn take_granted(step: TakeStep, peripheral_available: bool) -> bool {
    match step {
        TakeStep::First => peripheral_available,
        TakeStep::Again => true,
        TakeStep::Refused => false,
    }
}

/// The state code stored in the atomic byte that guards a handle.
pub fn handle_state_code(state: HandleState) -> (r: u8)
    ensures
        r == match state {
            HandleState::Never => 0u8,
            HandleState::Taken => 1u8,
            HandleState::Free => 2u8,
        },
{
    match state {
        HandleState::Never => 0,
        HandleState::Taken => 1,
        HandleState::Free => 2,
    }
}

/// At most one owner at a time: once a take succeeds, every further take is
/// refused until the owner releases the handle, and the take after a
/// release succeeds without claiming the peripheral again.
pub proof fn law_single_owner(state: HandleState)
    ensures
        take_transition(take_transition(state).0).1 == TakeStep::Refused,
        take_transition(HandleState::Free).1 == TakeStep::Again,
        take_granted(take_transition(HandleState::Free).1, false),
        take_transition(state).1 == TakeStep::First ==> state == HandleState::Never,
{
}

} // verus!
