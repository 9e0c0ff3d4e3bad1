//! Random Number Generator (chapter 44 of the 6ULLRM): decoding its status
//! register and deciding how much random data to read.
//!
//! The RNG generates a seed from a TRNG and feeds it to a PRNG, which
//! produces 5 32-bit words every 112 clock cycles; only the PRNG output is
//! exposed.

use vstd::prelude::*;

verus! {

/// Command register: software reset.
pub const CMD_SR: u32 = 1 << 6;

/// Control register: auto-reseed.
pub const CR_AR: u32 = 1 << 4;

/// Status register: offset of the statistics tests results.
pub const SR_STATPF_OFFSET: u32 = 24;

/// Status register: mask of the statistics tests results.
pub const SR_STATPF_MASK: u32 = 0xff;

/// Status register: seed done.
pub const SR_SDN: u32 = 1 << 5;

/// Status register: mask of the FIFO level.
pub const SR_FIFO_LVL_MASK: u32 = 0b1111;

/// Status register: offset of the FIFO level.
pub const SR_FIFO_LVL_OFFSET: u32 = 8;

/// The number of words the FIFO holds.
pub const FIFO_SIZE: usize = 5;

/// The results of running statistics tests.
#[derive(Clone, Copy, Debug)]
pub struct Stats {
    /// Monobit test failed
    pub monobit_test_failed: bool,
    /// Length 1 run test failed
    pub length_1_run_test_failed: bool,
    /// Length 2 run test failed
    pub length_2_run_test_failed: bool,
    /// Length 3 run test failed
    pub length_3_run_test_failed: bool,
    /// Length 4 run test failed
    pub length_4_run_test_failed: bool,
    /// Length 5 run test failed
    pub length_5_run_test_failed: bool,
    /// Length 6+ run test failed
    pub length_6_plus_run_test_failed: bool,
    /// Long run test (>34) failed
    pub long_run_test: bool,
}

/// The statistics test field of a status register value.
pub open spec fn statpf(sr: u32) -> u32 {
    (sr >> SR_STATPF_OFFSET) & SR_STATPF_MASK
}

/// Whether test `i` (0..=7) of the statistics field failed.
pub open spec fn test_failed(sr: u32, i: u32) -> bool {
    statpf(sr) & (1u32 << i) != 0
}

impl Stats {
    /// Decodes the results of the statistics tests from the status register.
    pub fn from_status(sr: u32) -> (s: Stats)
        ensures
            s.monobit_test_failed == test_failed(sr, 0),
            s.length_1_run_test_failed == test_failed(sr, 1),
            s.length_2_run_test_failed == test_failed(sr, 2),
            s.length_3_run_test_failed == test_failed(sr, 3),
            s.length_4_run_test_failed == test_failed(sr, 4),
            s.length_5_run_test_failed == test_failed(sr, 5),
            s.length_6_plus_run_test_failed == test_failed(sr, 6),
            s.long_run_test == test_failed(sr, 7),
    {
        let statpf = (sr >> SR_STATPF_OFFSET) & SR_STATPF_MASK;
        Stats {
            monobit_test_failed: statpf & (1u32 << 0u32) != 0,
            length_1_run_test_failed: statpf & (1u32 << 1u32) != 0,
            length_2_run_test_failed: statpf & (1u32 << 2u32) != 0,
            length_3_run_test_failed: statpf & (1u32 << 3u32) != 0,
            length_4_run_test_failed: statpf & (1u32 << 4u32) != 0,
            length_5_run_test_failed: statpf & (1u32 << 5u32) != 0,
            length_6_plus_run_test_failed: statpf & (1u32 << 6u32) != 0,
            long_run_test: statpf & (1u32 << 7u32) != 0,
        }
    }
}

/// Whether the status register says the first seed was generated.
pub fn seed_done(sr: u32) -> (r: bool)
    ensures
        r == (sr & SR_SDN != 0),
{
    sr & SR_SDN != 0
}

/// The FIFO level field of a status register value.
pub open spec fn fifo_level_of(sr: u32) -> u8 {
    ((sr >> SR_FIFO_LVL_OFFSET) & SR_FIFO_LVL_MASK) as u8
}

/// The number of words the FIFO currently holds.
pub fn fifo_level(sr: u32) -> (r: u8)
    ensures
        r == fifo_level_of(sr),
        r < 16,
{
    let v = (sr >> SR_FIFO_LVL_OFFSET) & SR_FIFO_LVL_MASK;
    assert(v < 16) by (bit_vector)
        requires v == (sr >> 8u32) & 0b1111u32;
    v as u8
}

/// What waiting for the FIFO does after reading the error status and the
/// status register.
#[derive(Clone, Copy, PartialEq, Eq, Structural)]
pub enum FifoStep {
    /// An error was detected: reset the block, enable auto-seeding and wait
    /// for the seed before reading the status again.
    Reset,
    /// The FIFO holds this many words, enough for the request.
    Ready(u8),
    /// Not enough words yet: read the status again.
    Wait,
}

/// Decides the next step of waiting until the FIFO holds `words` words.
pub fn fifo_step(esr: u32, sr: u32, words: u8) -> (r: FifoStep)
    requires
        words <= FIFO_SIZE,
    ensures
        r == if esr != 0 {
            FifoStep::Reset
        } else if fifo_level_of(sr) >= words {
            FifoStep::Ready(fifo_level_of(sr))
        } else {
            FifoStep::Wait
        },
{
    if esr != 0 {
        FifoStep::Reset
    } else {
        let level = fifo_level(sr);
        if level >= words {
            FifoStep::Ready(level)
        } else {
            FifoStep::Wait
        }
    }
}

/// The number of words to read into a buffer of `capacity` words when the
/// FIFO holds `level` words.
pub fn words_to_read(level: u8, capacity: usize) -> (r: usize)
    ensures
        r == if (level as usize) < capacity { level as usize } else { capacity },
        r <= capacity,
        r <= level,
{
    if (level as usize) < capacity {
        level as usize
    } else {
        capacity
    }
}

} // verus!
