//! Temporal quantification: instants of the real time counter and the
//! durations between them.

use core::time::Duration;
use vstd::prelude::*;

verus! {

/// The real time counter is clocked at 32_768 Hz.
pub const RTC_FREQUENCY: u64 = 32768;

/// The duration of `secs` seconds and `nanos` nanoseconds, as
/// `Duration::new` builds it.
pub uninterp spec fn duration_of(secs: u64, nanos: u32) -> Duration;

/// `Duration::new`: the duration of `secs` seconds and `nanos` nanoseconds.
/// With `nanos` below one second no carry happens and the call cannot panic.
#[verifier::external_body]
pub(crate) fn duration_new(secs: u64, nanos: u32) -> (d: Duration)
    requires
        nanos < 1_000_000_000,
    ensures
        d == duration_of(secs, nanos),
{
    Duration::new(secs, nanos)
}

/// The whole seconds in `ticks` periods of the counter.
pub open spec fn ticks_secs(ticks: u64) -> u64 {
    ticks / RTC_FREQUENCY
}

/// The nanoseconds in `ticks` periods of the counter beyond the whole
/// seconds, rounded down: a tick lasts 10^9 / 2^15 = 1_953_125 / 64 ns.
pub open spec fn ticks_subsec_nanos(ticks: u64) -> u32 {
    ((ticks % RTC_FREQUENCY) * 1_953_125 / 64) as u32
}

/// Splits `ticks` periods of the counter into seconds and nanoseconds.
pub fn ticks_to_secs_nanos(ticks: u64) -> (r: (u64, u32))
    ensures
        r.0 == ticks_secs(ticks),
        r.1 == ticks_subsec_nanos(ticks),
        r.1 < 1_000_000_000,
        r.0 * 1_000_000_000 + r.1 == (ticks as int) * 1_000_000_000 / (RTC_FREQUENCY as int),
{
    let secs = ticks / RTC_FREQUENCY;
    let rem = ticks % RTC_FREQUENCY;
    assert(rem * 1_953_125 <= 32767 * 1_953_125) by (nonlinear_arith)
        requires rem < 32768;
    let nanos = rem * 1_953_125 / 64;
    proof {
        let t = ticks as int;
        let q = secs as int;
        let m = rem as int;
        assert(t == 32768 * q + m) by {
            vstd::arithmetic::div_mod::lemma_fundamental_div_mod(t, 32768);
        }
        assert(nanos as int == m * 1_953_125 / 64);
        assert(m * 1_953_125 / 64 == m * 1_000_000_000 / 32768) by {
            assert(0 <= m * 1_953_125 * 512) by (nonlinear_arith) requires 0 <= m;
            assert(m * 1_000_000_000 == (m * 1_953_125) * 512) by (nonlinear_arith);
            vstd::arithmetic::div_mod::lemma_div_denominator(m * 1_953_125 * 512, 512, 64);
            vstd::arithmetic::div_mod::lemma_div_by_multiple(m * 1_953_125, 512);
            assert(512 * 64 == 32768);
        }
        assert(t * 1_000_000_000 == m * 1_000_000_000 + (q * 1_000_000_000) * 32768)
            by (nonlinear_arith) requires t == 32768 * q + m;
        vstd::arithmetic::div_mod::lemma_hoist_over_denominator(m * 1_000_000_000, q * 1_000_000_000, 32768);
        assert(m * 1_000_000_000 / 32768 < 1_000_000_000) by {
            vstd::arithmetic::div_mod::lemma_div_is_ordered(m * 1_000_000_000, 32767int * 1_000_000_000, 32768);
        }
    }
    (secs, nanos as u32)
}

/// A measurement of the monotonically nondecreasing real time counter.
#[derive(Clone, Copy)]
pub struct Instant {
    value: u64,
}

impl Instant {
    /// The counter value.
    pub closed spec fn ticks(self) -> u64 {
        self.value
    }

    /// The instant at which the counter read `high` in its upper and `low`
    /// in its lower 32 bits.
    pub fn from_counter(high: u32, low: u32) -> (i: Instant)
        ensures
            i.ticks() == high as u64 * 0x1_0000_0000 + low as u64,
    {
        let value = ((high as u64) << 32u64) | (low as u64);
        assert(value == high as u64 * 0x1_0000_0000 + low as u64) by (bit_vector)
            requires value == ((high as u64) << 32u64) | (low as u64);
        Instant { value }
    }

    /// Returns the amount of time elapsed from `earlier` to this instant.
    pub fn duration_since(self, earlier: Instant) -> (d: Duration)
        requires
            earlier.ticks() <= self.ticks(),
        ensures
            d == duration_of(
                ticks_secs((self.ticks() - earlier.ticks()) as u64),
                ticks_subsec_nanos((self.ticks() - earlier.ticks()) as u64),
            ),
    {
        let ticks = self.value - earlier.value;
        let (secs, nanos) = ticks_to_secs_nanos(ticks);
        duration_new(secs, nanos)
    }

    /// Whether this instant is not later than `other`, which the durations
    /// between the two require.
    pub fn not_after(self, other: Instant) -> (r: bool)
        ensures
            r == (self.ticks() <= other.ticks()),
    {
        self.value <= other.value
    }

    /// The whole seconds and the nanoseconds beyond them elapsed from this
    /// instant to `now`.
    pub fn elapsed_parts(self, now: Instant) -> (r: (u64, u32))
        requires
            self.ticks() <= now.ticks(),
        ensures
            r.0 == ticks_secs((now.ticks() - self.ticks()) as u64),
            r.1 == ticks_subsec_nanos((now.ticks() - self.ticks()) as u64),
    {
        ticks_to_secs_nanos(now.value - self.value)
    }

    /// Returns the amount of time elapsed from this instant to `now`.
    pub fn elapsed(self, now: Instant) -> (d: Duration)
        requires
            self.ticks() <= now.ticks(),
        ensures
            d == duration_of(
                ticks_secs((now.ticks() - self.ticks()) as u64),
                ticks_subsec_nanos((now.ticks() - self.ticks()) as u64),
            ),
    {
        now.duration_since(self)
    }
}

/// The counter value once two consecutive reads of its two halves agree: the
/// counter is not synchronized with the processor clock, so a read can be
/// torn between the halves.
pub fn settled_counter(high: u32, low: u32, new_high: u32, new_low: u32) -> (r: Option<Instant>)
    ensures
        r is Some <==> (high == new_high && low == new_low),
        r matches Some(i) ==> i.ticks() == high as u64 * 0x1_0000_0000 + low as u64,
{
    if new_low == low && new_high == high {
        Some(Instant::from_counter(high, low))
    } else {
        None
    }
}

/// The time read from the counter never goes back: a later (or equal)
/// counter value gives a duration that is no shorter, comparing the whole
/// seconds first and then the nanoseconds; and the nanoseconds of each stay
/// below a second.
pub proof fn law_elapsed_monotonic(t1: u64, t2: u64)
    requires
        t1 <= t2,
    ensures
        ticks_secs(t1) < ticks_secs(t2) || (ticks_secs(t1) == ticks_secs(t2) && ticks_subsec_nanos(
            t1,
        ) <= ticks_subsec_nanos(t2)),
        ticks_subsec_nanos(t1) < 1_000_000_000,
        ticks_subsec_nanos(t2) < 1_000_000_000,
{
    law_duration_exact(0, t1);
    law_duration_exact(0, t2);
    let a = t1 as int;
    let b = t2 as int;
    vstd::arithmetic::div_mod::lemma_div_is_ordered(a, b, 32768);
    if a / 32768 == b / 32768 {
        vstd::arithmetic::div_mod::lemma_fundamental_div_mod(a, 32768);
        vstd::arithmetic::div_mod::lemma_fundamental_div_mod(b, 32768);
        let m1 = a % 32768;
        let m2 = b % 32768;
        assert(m1 <= m2);
        assert(m1 * 1_953_125 <= m2 * 1_953_125) by (nonlinear_arith)
            requires m1 <= m2;
        vstd::arithmetic::div_mod::lemma_div_is_ordered(m1 * 1_953_125, m2 * 1_953_125, 64);
        assert(m2 * 1_953_125 <= 32767 * 1_953_125) by (nonlinear_arith)
            requires m2 < 32768;
    }
}

/// The seconds and nanoseconds of an interval of the counter denote its
/// exact length in nanoseconds, rounded down to a whole nanosecond, and the
/// nanoseconds never reach a whole second.
pub proof fn law_duration_exact(earlier: u64, later: u64)
    requires
        earlier <= later,
    ensures
        ticks_secs((later - earlier) as u64) * 1_000_000_000 + ticks_subsec_nanos((later - earlier) as u64)
            == (later - earlier) * 1_000_000_000 / (RTC_FREQUENCY as int),
        ticks_subsec_nanos((later - earlier) as u64) < 1_000_000_000,
{
    let t = (later - earlier) as u64;
    let q = t / RTC_FREQUENCY;
    let m = t % RTC_FREQUENCY;
    assert(m * 1_953_125 <= 32767 * 1_953_125) by (nonlinear_arith)
        requires m < 32768;
    let ti = t as int;
    assert((m as int) * 1_000_000_000 / 32768 < 1_000_000_000) by {
        vstd::arithmetic::div_mod::lemma_div_is_ordered((m as int) * 1_000_000_000, 32767int * 1_000_000_000, 32768);
    }
    assert(ti == 32768 * (q as int) + m as int) by {
        vstd::arithmetic::div_mod::lemma_fundamental_div_mod(ti, 32768);
    }
    assert((m as int) * 1_953_125 / 64 == (m as int) * 1_000_000_000 / 32768) by {
        assert(0 <= (m as int) * 1_953_125 * 512) by (nonlinear_arith);
        assert((m as int) * 1_000_000_000 == ((m as int) * 1_953_125) * 512) by (nonlinear_arith);
        vstd::arithmetic::div_mod::lemma_div_denominator((m as int) * 1_953_125 * 512, 512, 64);
        vstd::arithmetic::div_mod::lemma_div_by_multiple((m as int) * 1_953_125, 512);
    }
    assert(ti * 1_000_000_000 == (m as int) * 1_000_000_000 + ((q as int) * 1_000_000_000) * 32768)
        by (nonlinear_arith) requires ti == 32768 * (q as int) + m as int;
    vstd::arithmetic::div_mod::lemma_hoist_over_denominator(
        (m as int) * 1_000_000_000,
        (q as int) * 1_000_000_000,
        32768,
    );
}

} // verus!
