//! Card registers: the card specific data and the card status.

use vstd::prelude::*;

verus! {

/// Card Specific Data.
pub struct Csd {
    read_block_size_log2: u8,
    size: u16,
    size_mult: u8,
    spec_vers: u8,
    write_block_size_log2: u8,
}

/// The field of the CSD register that starts at bit `offset` (counted as in
/// the register, whose bit 8 is bit 0 of the first response word), masked by
/// `mask`.
pub open spec fn csd_field(rsps: Seq<u32>, offset: int, mask: u32) -> u32 {
    let o = offset - 8;
    (rsps[o / 32] >> ((o % 32) as u32)) & mask
}

fn extract(rsps: &[u32; 4], offset: usize, mask: u32) -> (r: u32)
    requires
        8 <= offset < 136,
    ensures
        r == csd_field(rsps@, offset as int, mask),
        r <= mask,
{
    let o = offset - 8;
    let x = rsps[o / 32] >> ((o % 32) as u32);
    let r = x & mask;
    assert(r <= mask) by (bit_vector)
        requires r == x & mask;
    r
}

impl Csd {
    #[verifier::type_invariant]
    spec fn fields_in_range(self) -> bool {
        &&& self.read_block_size_log2 < 16
        &&& self.write_block_size_log2 < 16
        &&& self.size < 4096
        &&& self.size_mult < 8
        &&& self.spec_vers < 16
    }

    /// The version of the specification field.
    pub closed spec fn spec_version(self) -> u8 {
        self.spec_vers
    }

    /// Log2 of the maximum read block length.
    pub closed spec fn read_bl_len(self) -> u8 {
        self.read_block_size_log2
    }

    /// Log2 of the maximum write block length.
    pub closed spec fn write_bl_len(self) -> u8 {
        self.write_block_size_log2
    }

    /// The device size field.
    pub closed spec fn c_size(self) -> u16 {
        self.size
    }

    /// The device size multiplier field.
    pub closed spec fn c_size_mult(self) -> u8 {
        self.size_mult
    }

    /// Decodes the CSD from the four words of an R2 response.
    pub fn from_response(rsps: [u32; 4]) -> (c: Csd)
        ensures
            c.spec_version() == csd_field(rsps@, 122, 0xf),
            c.write_bl_len() == csd_field(rsps@, 22, 0xf),
            c.read_bl_len() == csd_field(rsps@, 80, 0xf),
            c.c_size() == csd_field(rsps@, 62, 0x3ff) | (csd_field(rsps@, 72, 0x3) << 10),
            c.c_size_mult() == csd_field(rsps@, 47, 0x7),
    {
        let spec_vers = extract(&rsps, 122, 0xf);
        let write_block_size_log2 = extract(&rsps, 22, 0xf);
        let read_block_size_log2 = extract(&rsps, 80, 0xf);
        // C_SIZE (bits 62..=73) straddles the second and third words
        let size_low = extract(&rsps, 62, 0x3ff);
        let size_high = extract(&rsps, 72, 0x3);
        let size = size_low | (size_high << 10u32);
        assert(size < 4096) by (bit_vector)
            requires
                size_low <= 0x3ff,
                size_high <= 0x3,
                size == size_low | (size_high << 10u32),
        ;
        let size_mult = extract(&rsps, 47, 0x7);
        Csd {
            read_block_size_log2: read_block_size_log2 as u8,
            size: size as u16,
            size_mult: size_mult as u8,
            spec_vers: spec_vers as u8,
            write_block_size_log2: write_block_size_log2 as u8,
        }
    }

    /// Returns the version of the eMMC specification supported by the card.
    pub fn version(&self) -> (r: u8)
        ensures
            r == self.spec_version(),
    {
        self.spec_vers
    }

    /// Maximum supported block length for read operations.
    pub fn max_read_block_size(&self) -> (r: u16)
        ensures
            r == 1u16 << self.read_bl_len() as u16,
    {
        proof {
            use_type_invariant(self);
        }
        1u16 << (self.read_block_size_log2 as u16)
    }

    /// Maximum supported block length for write operations.
    pub fn max_write_block_size(&self) -> (r: u16)
        ensures
            r == 1u16 << self.write_bl_len() as u16,
    {
        proof {
            use_type_invariant(self);
        }
        1u16 << (self.write_block_size_log2 as u16)
    }

    /// The number of memory blocks this card has: `2^(C_SIZE_MULT + 2)` times
    /// `C_SIZE + 1`.
    ///
    /// For cards above 2 GB this may not match the actual capacity; the
    /// EXT_CSD register must be consulted.
    pub fn number_of_blocks(&self) -> (r: u32)
        ensures
            r == vstd::arithmetic::power2::pow2((self.c_size_mult() + 2) as nat) * (self.c_size() + 1),
    {
        proof {
            use_type_invariant(self);
            vstd::arithmetic::power2::lemma2_to64();
            vstd::bits::lemma_u32_shl_is_mul(1, (self.size_mult + 2) as u32);
            vstd::arithmetic::power2::lemma_pow2_pos((self.size_mult + 2) as nat);
            vstd::arithmetic::power2::lemma_pow2_strictly_increases((self.size_mult + 2) as nat, 10);
            let p = vstd::arithmetic::power2::pow2((self.size_mult + 2) as nat);
            assert(p * (self.size + 1) <= 1024 * 4096) by (nonlinear_arith)
                requires p < 1024, self.size + 1 <= 4096;
        }
        (1u32 << ((self.size_mult + 2) as u32)) * (self.size as u32 + 1)
    }
}

/// Bits of the card status that report an error.
pub const STATUS_ERROR_MASK: u32 = 0xfdffa080;

/// Card state.
#[derive(Clone, Copy, Debug, Eq, PartialEq, Structural)]
pub enum State {
    Idle,
    Ready,
    Identification,
    Standby,
    Transfer,
    SendingData,
    ReceiveData,
    Programming,
    Other,
}

/// The state encoded in bits 9..=12 of a card status.
pub open spec fn state_of(bits: u32) -> State {
    let s = (bits >> 9u32) & 0xfu32;
    if s == 0 {
        State::Idle
    } else if s == 1 {
        State::Ready
    } else if s == 2 {
        State::Identification
    } else if s == 3 {
        State::Standby
    } else if s == 4 {
        State::Transfer
    } else if s == 5 {
        State::SendingData
    } else if s == 6 {
        State::ReceiveData
    } else if s == 7 {
        State::Programming
    } else {
        State::Other
    }
}

/// The card states in the order of their CURRENT_STATE codes 0 to 7.
pub open spec fn state_codes() -> Seq<State> {
    seq![
        State::Idle,
        State::Ready,
        State::Identification,
        State::Standby,
        State::Transfer,
        State::SendingData,
        State::ReceiveData,
        State::Programming,
    ]
}

/// A decoded card status is in the state that its CURRENT_STATE field (bits
/// 9 to 12) names: codes 0 to 7 are, in order, idle, ready, identification,
/// stand-by, transfer, sending-data, receive-data and programming; the
/// other codes are reserved.
pub proof fn law_current_state(bits: u32)
    ensures
        ((bits / 512) % 16) < 8 ==> status_of(bits).state == state_codes()[((bits / 512) % 16) as int],
        ((bits / 512) % 16) >= 8 ==> status_of(bits).state == State::Other,
{
    assert((bits >> 9u32) & 0xfu32 == (bits / 512) % 16) by (bit_vector);
}

/// Card status (an R1 response).
#[derive(Clone, Copy)]
pub struct Status {
    pub bits: u32,
    pub state: State,
    pub address_out_of_range: bool,
    pub address_misalign: bool,
    pub block_len_error: bool,
    pub erase_seq_error: bool,
    pub erase_param: bool,
    pub wp_violation: bool,
    pub lock_unlock_failed: bool,
    pub com_crc_error: bool,
    pub illegal_command: bool,
    pub card_ecc_failed: bool,
    pub cc_error: bool,
    pub error: bool,
    pub underrun: bool,
    pub overrun: bool,
    pub cid_csd_overwrite: bool,
    pub wp_erase_skip: bool,
    pub erase_reset: bool,
    pub switch_error: bool,
    pub card_is_locked: bool,
    pub ready_for_data: bool,
    pub urgent_bkops: bool,
    pub app_cmd: bool,
}

/// The card status that a raw R1 word encodes.
pub open spec fn status_of(bits: u32) -> Status {
    Status {
        bits,
        state: state_of(bits),
        address_out_of_range: bits & (1u32 << 31u32) != 0,
        address_misalign: bits & (1u32 << 30u32) != 0,
        block_len_error: bits & (1u32 << 29u32) != 0,
        erase_seq_error: bits & (1u32 << 28u32) != 0,
        erase_param: bits & (1u32 << 27u32) != 0,
        wp_violation: bits & (1u32 << 26u32) != 0,
        lock_unlock_failed: bits & (1u32 << 24u32) != 0,
        com_crc_error: bits & (1u32 << 23u32) != 0,
        illegal_command: bits & (1u32 << 22u32) != 0,
        card_ecc_failed: bits & (1u32 << 21u32) != 0,
        cc_error: bits & (1u32 << 20u32) != 0,
        error: bits & (1u32 << 19u32) != 0,
        underrun: bits & (1u32 << 18u32) != 0,
        overrun: bits & (1u32 << 17u32) != 0,
        cid_csd_overwrite: bits & (1u32 << 16u32) != 0,
        wp_erase_skip: bits & (1u32 << 15u32) != 0,
        erase_reset: bits & (1u32 << 13u32) != 0,
        switch_error: bits & (1u32 << 7u32) != 0,
        card_is_locked: bits & (1u32 << 25u32) != 0,
        ready_for_data: bits & (1u32 << 8u32) != 0,
        urgent_bkops: bits & (1u32 << 6u32) != 0,
        app_cmd: bits & (1u32 << 5u32) != 0,
    }
}

impl Status {
    /// Decodes a card status; `Err` when any error bit is set.
    pub fn from(bits: u32) -> (r: Result<Status, Status>)
        ensures
            r is Err <==> bits & STATUS_ERROR_MASK != 0,
            match r {
                Ok(s) => s == status_of(bits),
                Err(s) => s == status_of(bits),
            },
    {
        let s = (bits >> 9u32) & 0xfu32;
        let state = if s == 0 {
            State::Idle
        } else if s == 1 {
            State::Ready
        } else if s == 2 {
            State::Identification
        } else if s == 3 {
            State::Standby
        } else if s == 4 {
            State::Transfer
        } else if s == 5 {
            State::SendingData
        } else if s == 6 {
            State::ReceiveData
        } else if s == 7 {
            State::Programming
        } else {
            State::Other
        };
        let has_errors = bits & STATUS_ERROR_MASK != 0;
        let address_out_of_range = bits & (1u32 << 31u32) != 0;
        let address_misalign = bits & (1u32 << 30u32) != 0;
        let block_len_error = bits & (1u32 << 29u32) != 0;
        let erase_seq_error = bits & (1u32 << 28u32) != 0;
        let erase_param = bits & (1u32 << 27u32) != 0;
        let wp_violation = bits & (1u32 << 26u32) != 0;
        let lock_unlock_failed = bits & (1u32 << 24u32) != 0;
        let com_crc_error = bits & (1u32 << 23u32) != 0;
        let illegal_command = bits & (1u32 << 22u32) != 0;
        let card_ecc_failed = bits & (1u32 << 21u32) != 0;
        let cc_error = bits & (1u32 << 20u32) != 0;
        let error = bits & (1u32 << 19u32) != 0;
        let underrun = bits & (1u32 << 18u32) != 0;
        let overrun = bits & (1u32 << 17u32) != 0;
        let cid_csd_overwrite = bits & (1u32 << 16u32) != 0;
        let wp_erase_skip = bits & (1u32 << 15u32) != 0;
        let erase_reset = bits & (1u32 << 13u32) != 0;
        let switch_error = bits & (1u32 << 7u32) != 0;
        let card_is_locked = bits & (1u32 << 25u32) != 0;
        let ready_for_data = bits & (1u32 << 8u32) != 0;
        let urgent_bkops = bits & (1u32 << 6u32) != 0;
        let app_cmd = bits & (1u32 << 5u32) != 0;
        let status = Status {
            bits,
            state,
            address_out_of_range,
            address_misalign,
            block_len_error,
            erase_seq_error,
            erase_param,
            wp_violation,
            lock_unlock_failed,
            com_crc_error,
            illegal_command,
            card_ecc_failed,
            cc_error,
            error,
            underrun,
            overrun,
            cid_csd_overwrite,
            wp_erase_skip,
            erase_reset,
            switch_error,
            card_is_locked,
            ready_for_data,
            urgent_bkops,
            app_cmd
        };
        if has_errors {
            Err(status)
        } else {
            Ok(status)
        }
    }

}

impl PartialEq for Status {
    fn eq(&self, rhs: &Self) -> (r: bool) {
        self.bits == rhs.bits
    }
}

impl vstd::std_specs::cmp::PartialEqSpecImpl for Status {
    open spec fn obeys_eq_spec() -> bool {
        true
    }

    open spec fn eq_spec(&self, rhs: &Status) -> bool {
        self.bits == rhs.bits
    }
}

/// A status word has an error exactly when one of the error flags that it
/// decodes to is set.
pub proof fn law_error_flags(bits: u32)
    ensures
        (bits & STATUS_ERROR_MASK != 0) <==> (status_of(bits).address_out_of_range || status_of(bits).address_misalign || status_of(bits).block_len_error || status_of(bits).erase_seq_error || status_of(bits).erase_param || status_of(bits).wp_violation || status_of(bits).lock_unlock_failed || status_of(bits).com_crc_error || status_of(bits).illegal_command || status_of(bits).card_ecc_failed || status_of(bits).cc_error || status_of(bits).error || status_of(bits).underrun || status_of(bits).overrun || status_of(bits).cid_csd_overwrite || status_of(bits).wp_erase_skip || status_of(bits).erase_reset || status_of(bits).switch_error),
{
    assert((bits & 0xfdffa080u32 != 0) <==> (bits & (1u32 << 31u32) != 0 || bits & (1u32 << 30u32) != 0 || bits & (1u32 << 29u32) != 0 || bits & (1u32 << 28u32) != 0 || bits & (1u32 << 27u32) != 0 || bits & (1u32 << 26u32) != 0 || bits & (1u32 << 24u32) != 0 || bits & (1u32 << 23u32) != 0 || bits & (1u32 << 22u32) != 0 || bits & (1u32 << 21u32) != 0 || bits & (1u32 << 20u32) != 0 || bits & (1u32 << 19u32) != 0 || bits & (1u32 << 18u32) != 0 || bits & (1u32 << 17u32) != 0 || bits & (1u32 << 16u32) != 0 || bits & (1u32 << 15u32) != 0 || bits & (1u32 << 13u32) != 0 || bits & (1u32 << 7u32) != 0)) by (bit_vector);
}

} // verus!
