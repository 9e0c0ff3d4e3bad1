//! Real Time Counter.

use crate::time::{duration_of, ticks_secs, ticks_subsec_nanos, Instant};
use core::time::Duration;
use vstd::prelude::*;

verus! {

/// HPCR: enable the real time counter.
pub const SNVS_HPCR_RTC_EN: u32 = 1;

/// A handle to the initialized real time counter.
#[derive(Clone, Copy)]
pub struct Rtc {
    _private: (),
}

impl Rtc {
    /// The handle to a counter that has been enabled (with no calibration,
    /// by writing `SNVS_HPCR_RTC_EN` to HPCR).
    pub fn enabled() -> (r: Rtc) {
        Rtc { _private: () }
    }

    /// The time elapsed since the counter was enabled, from a settled read of
    /// its upper (`high`) and lower (`low`) halves.
    pub fn elapsed(&self, high: u32, low: u32) -> (d: Duration)
        ensures
            d == duration_of(
                ticks_secs((high as u64 * 0x1_0000_0000 + low as u64) as u64),
                ticks_subsec_nanos((high as u64 * 0x1_0000_0000 + low as u64) as u64),
            ),
    {
        let zero = Instant::from_counter(0, 0);
        let now = Instant::from_counter(high, low);
        zero.elapsed(now)
    }
}

} // verus!
