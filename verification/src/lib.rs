//! Board support logic for USB armory mkII devices: register encodings,
//! descriptor layouts, command tables and the decisions that the drivers take.
//!
//! References: 'ULRM', i.MX 6UltraLite Applications Processor Reference
//! Manual; 'ULLRM', i.MX 6ULL Applications Processor Reference Manual.

pub mod usbd;
pub mod storage;
pub mod dcp;
pub mod util;
pub mod emmc;
pub mod time;
pub mod led;
pub mod rng;
pub mod rtc;
pub mod serial;
pub mod fs;

use vstd::prelude::*;

verus! {

/// Default CPU frequency: `delay(5 * CPU_FREQUENCY)` waits at least five
/// seconds.
pub const CPU_FREQUENCY: u32 = 528_000_000;

/// Watchdog control register: software reset signal (active low).
pub const WDOG_WCR_SRS: u16 = 1 << 4;

/// The watchdog control register value that asserts the software reset.
pub fn reset_wcr(wcr: u16) -> (r: u16)
    ensures
        r == wcr & !WDOG_WCR_SRS,
{
    wcr & !WDOG_WCR_SRS
}

} // verus!
