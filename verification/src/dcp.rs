//! Data Co-Processor (DCP): command descriptors, control words and the
//! bookkeeping of its channels.
//!
//! The DCP supports AES-128 (ECB and CBC), SHA-256 and SHA-1; SHA-256 and
//! AES-128 in ECB mode are exposed. The DCP is only available on the
//! i.MX6UL**Z** chip.

pub mod aes128;
pub mod sha256;

use vstd::prelude::*;

verus! {

/// Bits of a channel status register that report an error.
pub const STAT_ERROR_MASK: u32 = (0xff << 16) | (1 << 6) | (1 << 5) | (1 << 4) | (1 << 3) | (1 << 2);

/// Channel used for AES-128 with a hardware key.
pub const AES128_HW_CHANNEL: u8 = 3;

/// Channel used for SHA-256.
pub const SHA256_CHANNEL: u8 = 2;

/// Channel used for AES-128 with a key written by software.
pub const AES128_RAM_CHANNEL: u8 = 1;

/// Size of the context buffer: enough for channels 1, 2 and 3.
pub const CTXT_SZ: usize = 156;

/// The VERSION register value of the supported DCP.
pub const SUPPORTED_VERSION: u32 = (1 << 25) | (1 << 16);

/// CAPABILITY1 bit: AES-128 is supported.
pub const CAPABILITY1_AES128: u32 = 1;

/// CAPABILITY1 bit: SHA-256 is supported.
pub const CAPABILITY1_SHA256: u32 = 1 << 18;

/// The word with bit `offset` set (`on`) or cleared.
pub open spec fn with_flag(bits: u32, offset: u32, on: bool) -> u32 {
    if on {
        bits | (1u32 << offset)
    } else {
        bits & !(1u32 << offset)
    }
}

/// The word with the field `mask << offset` replaced by `val`.
pub open spec fn with_field(bits: u32, mask: u32, offset: u32, val: u32) -> u32 {
    (bits & !(mask << offset)) | (val << offset)
}

/// Why the DCP cannot be used.
#[derive(Clone, Copy, PartialEq, Eq, Structural)]
pub enum DcpError {
    /// The VERSION register does not name the supported block.
    UnsupportedVersion,
    /// The block cannot do AES-128.
    NoAes128,
    /// The block cannot do SHA-256.
    NoSha256,
}

/// Checks the VERSION and CAPABILITY1 registers of the DCP.
pub fn check_dcp(version: u32, capability: u32) -> (r: Result<(), DcpError>)
    ensures
        r == if version != SUPPORTED_VERSION {
            Err(DcpError::UnsupportedVersion)
        } else if capability & CAPABILITY1_AES128 == 0 {
            Err(DcpError::NoAes128)
        } else if capability & CAPABILITY1_SHA256 == 0 {
            Err(DcpError::NoSha256)
        } else {
            Ok(())
        },
{
    if version != SUPPORTED_VERSION {
        Err(DcpError::UnsupportedVersion)
    } else if capability & CAPABILITY1_AES128 == 0 {
        Err(DcpError::NoAes128)
    } else if capability & CAPABILITY1_SHA256 == 0 {
        Err(DcpError::NoSha256)
    } else {
        Ok(())
    }
}

/// Whether a channel finished an operation: the command's status word reports
/// completion, or the channel status register reports an error.
pub fn operation_finished(cmd_status: u32, stat: u32) -> (r: bool)
    ensures
        r == (cmd_status & 1 != 0 || stat & STAT_ERROR_MASK != 0),
{
    cmd_status & 1 != 0 || stat & STAT_ERROR_MASK != 0
}

/// Whether the channel status register reports an error.
pub fn stat_has_error(stat: u32) -> (r: bool)
    ensures
        r == (stat & STAT_ERROR_MASK != 0),
{
    stat & STAT_ERROR_MASK != 0
}

/// The context buffer that the DCP saves channel state into.
pub struct Context {
    bytes: [u8; 156],
}

impl Context {
    /// The bytes of the buffer.
    pub closed spec fn contents(self) -> Seq<u8> {
        self.bytes@
    }

    /// A zeroed context buffer.
    pub fn empty() -> (c: Context)
        ensures
            c.contents() == Seq::new(CTXT_SZ as nat, |i: int| 0u8),
    {
        let c = Context { bytes: [0u8; 156] };
        assert(c.bytes@ =~= Seq::new(CTXT_SZ as nat, |i: int| 0u8));
        c
    }
}

/// Control word 0 of a DCP command (section 13.2.6.4 of the MX28RM).
#[derive(Clone, Copy)]
pub struct Control0 {
    bits: u32,
}

impl Control0 {
    /// The raw word.
    pub closed spec fn value(self) -> u32 {
        self.bits
    }

    /// A cleared control word.
    pub fn new() -> (c: Control0)
        ensures
            c.value() == 0,
    {
        Control0 { bits: 0 }
    }

    /// The raw word.
    pub fn bits(&self) -> (r: u32)
        ensures
            r == self.value(),
    {
        self.bits
    }

    fn set_flag(&mut self, offset: u32, on: bool) -> (r: &mut Self)
        requires
            offset < 32,
        ensures
            r.value() == with_flag(old(self).value(), offset, on),
            *final(self) == *final(r),
    {
        if on {
            self.bits = self.bits | (1u32 << offset);
        } else {
            self.bits = self.bits & !(1u32 << offset);
        }
        self
    }

    /// Writes the tag reported back in the channel status.
    pub fn tag(&mut self, tag: u8) -> (r: &mut Self)
        ensures
            r.value() == with_field(old(self).value(), 0xff, 24, tag as u32),
            *final(self) == *final(r),
    {
        self.bits = self.bits & !(0xffu32 << 24u32);
        self.bits = self.bits | ((tag as u32) << 24u32);
        self
    }

    /// Raise an interrupt when the operation completes.
    pub fn interrupt(&mut self, on: bool) -> (r: &mut Self)
        ensures
            r.value() == with_flag(old(self).value(), 0, on),
            *final(self) == *final(r),
    {
        self.set_flag(0, on)
    }

    /// Decrement the channel semaphore when the operation completes.
    pub fn decr_semaphore(&mut self, on: bool) -> (r: &mut Self)
        ensures
            r.value() == with_flag(old(self).value(), 1, on),
            *final(self) == *final(r),
    {
        self.set_flag(1, on)
    }

    /// Follow the next command pointer.
    pub fn chain(&mut self, on: bool) -> (r: &mut Self)
        ensures
            r.value() == with_flag(old(self).value(), 2, on),
            *final(self) == *final(r),
    {
        self.set_flag(2, on)
    }

    /// Follow the next command, which lies right after this one.
    pub fn chain_contiguous(&mut self, on: bool) -> (r: &mut Self)
        ensures
            r.value() == with_flag(old(self).value(), 3, on),
            *final(self) == *final(r),
    {
        self.set_flag(3, on)
    }

    /// Perform a memory copy.
    pub fn enable_memcpy(&mut self, on: bool) -> (r: &mut Self)
        ensures
            r.value() == with_flag(old(self).value(), 4, on),
            *final(self) == *final(r),
    {
        self.set_flag(4, on)
    }

    /// Perform a cipher operation.
    pub fn enable_cipher(&mut self, on: bool) -> (r: &mut Self)
        ensures
            r.value() == with_flag(old(self).value(), 5, on),
            *final(self) == *final(r),
    {
        self.set_flag(5, on)
    }

    /// Perform a hash operation.
    pub fn enable_hash(&mut self, on: bool) -> (r: &mut Self)
        ensures
            r.value() == with_flag(old(self).value(), 6, on),
            *final(self) == *final(r),
    {
        self.set_flag(6, on)
    }

    /// Perform a blit.
    pub fn enable_blit(&mut self, on: bool) -> (r: &mut Self)
        ensures
            r.value() == with_flag(old(self).value(), 7, on),
            *final(self) == *final(r),
    {
        self.set_flag(7, on)
    }

    /// Encrypt (set) or decrypt (clear).
    pub fn cipher_encrypt(&mut self, on: bool) -> (r: &mut Self)
        ensures
            r.value() == with_flag(old(self).value(), 8, on),
            *final(self) == *final(r),
    {
        self.set_flag(8, on)
    }

    /// Initialize the cipher chaining state.
    pub fn cipher_init(&mut self, on: bool) -> (r: &mut Self)
        ensures
            r.value() == with_flag(old(self).value(), 9, on),
            *final(self) == *final(r),
    {
        self.set_flag(9, on)
    }

    /// Use the OTP key.
    pub fn otp_key(&mut self, on: bool) -> (r: &mut Self)
        ensures
            r.value() == with_flag(old(self).value(), 10, on),
            *final(self) == *final(r),
    {
        self.set_flag(10, on)
    }

    /// Take the key from the payload.
    pub fn payload_key(&mut self, on: bool) -> (r: &mut Self)
        ensures
            r.value() == with_flag(old(self).value(), 11, on),
            *final(self) == *final(r),
    {
        self.set_flag(11, on)
    }

    /// This is the first block of a hash.
    pub fn hash_init(&mut self, on: bool) -> (r: &mut Self)
        ensures
            r.value() == with_flag(old(self).value(), 12, on),
            *final(self) == *final(r),
    {
        self.set_flag(12, on)
    }

    /// This is the last block of a hash.
    pub fn hash_term(&mut self, on: bool) -> (r: &mut Self)
        ensures
            r.value() == with_flag(old(self).value(), 13, on),
            *final(self) == *final(r),
    {
        self.set_flag(13, on)
    }

    /// Compare the hash with the payload.
    pub fn check_hash(&mut self, on: bool) -> (r: &mut Self)
        ensures
            r.value() == with_flag(old(self).value(), 14, on),
            *final(self) == *final(r),
    {
        self.set_flag(14, on)
    }

    /// Hash the output (set) or the input (clear) data.
    pub fn hash_output(&mut self, on: bool) -> (r: &mut Self)
        ensures
            r.value() == with_flag(old(self).value(), 15, on),
            *final(self) == *final(r),
    {
        self.set_flag(15, on)
    }

    /// Fill the destination with a constant.
    pub fn constant_fill(&mut self, on: bool) -> (r: &mut Self)
        ensures
            r.value() == with_flag(old(self).value(), 16, on),
            *final(self) == *final(r),
    {
        self.set_flag(16, on)
    }

    /// Swap the bytes of the key.
    pub fn key_byteswap(&mut self, on: bool) -> (r: &mut Self)
        ensures
            r.value() == with_flag(old(self).value(), 18, on),
            *final(self) == *final(r),
    {
        self.set_flag(18, on)
    }

    /// Swap the words of the key.
    pub fn key_wordswap(&mut self, on: bool) -> (r: &mut Self)
        ensures
            r.value() == with_flag(old(self).value(), 19, on),
            *final(self) == *final(r),
    {
        self.set_flag(19, on)
    }

    /// Swap the bytes of the input.
    pub fn input_byteswap(&mut self, on: bool) -> (r: &mut Self)
        ensures
            r.value() == with_flag(old(self).value(), 20, on),
            *final(self) == *final(r),
    {
        self.set_flag(20, on)
    }

    /// Swap the words of the input.
    pub fn input_wordswap(&mut self, on: bool) -> (r: &mut Self)
        ensures
            r.value() == with_flag(old(self).value(), 21, on),
            *final(self) == *final(r),
    {
        self.set_flag(21, on)
    }

    /// Swap the bytes of the output.
    pub fn output_byteswap(&mut self, on: bool) -> (r: &mut Self)
        ensures
            r.value() == with_flag(old(self).value(), 22, on),
            *final(self) == *final(r),
    {
        self.set_flag(22, on)
    }

    /// Swap the words of the output.
    pub fn output_wordswap(&mut self, on: bool) -> (r: &mut Self)
        ensures
            r.value() == with_flag(old(self).value(), 23, on),
            *final(self) == *final(r),
    {
        self.set_flag(23, on)
    }
}

/// Cipher selection.
#[derive(Clone, Copy, PartialEq, Eq, Structural)]
pub enum CipherSelect {
    Aes128,
}

/// Cipher chaining mode.
#[derive(Clone, Copy, PartialEq, Eq, Structural)]
pub enum CipherMode {
    Ecb,
    Cbc,
}

/// Key selection.
#[derive(Clone, Copy, PartialEq, Eq, Structural)]
pub enum KeySelect {
    /// Key slot 0, written by software.
    Key0,
    /// The device unique key.
    UniqueKey,
    /// The OTP key.
    OtpKey,
}

/// Hash selection.
#[derive(Clone, Copy, PartialEq, Eq, Structural)]
pub enum HashSelect {
    Sha256,
}

/// The code of a cipher in CONTROL1.
pub open spec fn cipher_select_code(c: CipherSelect) -> u32 {
    match c {
        CipherSelect::Aes128 => 0,
    }
}

/// The code of a chaining mode in CONTROL1.
pub open spec fn cipher_mode_code(m: CipherMode) -> u32 {
    match m {
        CipherMode::Ecb => 0,
        CipherMode::Cbc => 1,
    }
}

/// The code of a key in CONTROL1.
pub open spec fn key_select_code(k: KeySelect) -> u32 {
    match k {
        KeySelect::Key0 => 0,
        KeySelect::UniqueKey => 0xfe,
        KeySelect::OtpKey => 0xff,
    }
}

/// The code of a hash in CONTROL1.
pub open spec fn hash_select_code(h: HashSelect) -> u32 {
    match h {
        HashSelect::Sha256 => 2,
    }
}

/// Control word 1 of a DCP command.
#[derive(Clone, Copy)]
pub struct Control1 {
    bits: u32,
}

impl Control1 {
    /// The raw word.
    pub closed spec fn value(self) -> u32 {
        self.bits
    }

    /// A cleared control word.
    pub fn new() -> (c: Control1)
        ensures
            c.value() == 0,
    {
        Control1 { bits: 0 }
    }

    /// The raw word.
    pub fn bits(&self) -> (r: u32)
        ensures
            r == self.value(),
    {
        self.bits
    }

    fn set_field(&mut self, mask: u32, offset: u32, val: u32) -> (r: &mut Self)
        requires
            offset < 32,
        ensures
            r.value() == with_field(old(self).value(), mask, offset, val),
            *final(self) == *final(r),
    {
        self.bits = self.bits & !(mask << offset);
        self.bits = self.bits | (val << offset);
        self
    }

    /// Selects the cipher.
    pub fn cipher_select(&mut self, val: CipherSelect) -> (r: &mut Self)
        ensures
            r.value() == with_field(old(self).value(), 0xf, 0, cipher_select_code(val)),
            *final(self) == *final(r),
    {
        let code: u32 = match val {
            CipherSelect::Aes128 => 0,
        };
        self.set_field(0xf, 0, code)
    }

    /// Selects the chaining mode.
    pub fn cipher_mode(&mut self, val: CipherMode) -> (r: &mut Self)
        ensures
            r.value() == with_field(old(self).value(), 0xf, 4, cipher_mode_code(val)),
            *final(self) == *final(r),
    {
        let code: u32 = match val {
            CipherMode::Ecb => 0,
            CipherMode::Cbc => 1,
        };
        self.set_field(0xf, 4, code)
    }

    /// Selects the key.
    pub fn key_select(&mut self, val: KeySelect) -> (r: &mut Self)
        ensures
            r.value() == with_field(old(self).value(), 0xff, 8, key_select_code(val)),
            *final(self) == *final(r),
    {
        let code: u32 = match val {
            KeySelect::Key0 => 0,
            KeySelect::UniqueKey => 0xfe,
            KeySelect::OtpKey => 0xff,
        };
        self.set_field(0xff, 8, code)
    }

    /// Selects the hash.
    pub fn hash_select(&mut self, val: HashSelect) -> (r: &mut Self)
        ensures
            r.value() == with_field(old(self).value(), 0xf, 16, hash_select_code(val)),
            *final(self) == *final(r),
    {
        let code: u32 = match val {
            HashSelect::Sha256 => 2,
        };
        self.set_field(0xf, 16, code)
    }
}

/// A DCP command descriptor, with addresses as plain numbers (0 for none).
pub struct Cmd {
    pub next_cmd_addr: usize,
    pub control0: Control0,
    pub control1: Control1,
    pub src_buffer_addr: usize,
    pub dest_buffer_addr: usize,
    pub buffer_size: usize,
    pub payload_pointer: usize,
    pub status: u32,
}

impl Cmd {
    /// A command with no successor, cleared control words, no buffers and a
    /// cleared status.
    pub fn new() -> (c: Cmd)
        ensures
            c.next_cmd_addr == 0,
            c.control0.value() == 0,
            c.control1.value() == 0,
            c.src_buffer_addr == 0,
            c.dest_buffer_addr == 0,
            c.buffer_size == 0,
            c.payload_pointer == 0,
            c.status == 0,
    {
        Cmd {
            next_cmd_addr: 0,
            control0: Control0::new(),
            control1: Control1::new(),
            src_buffer_addr: 0,
            dest_buffer_addr: 0,
            buffer_size: 0,
            payload_pointer: 0,
            status: 0,
        }
    }
}

/// Setting a flag makes it read back as set, clearing it makes it read back
/// as clear, and no other bit of the word changes.
pub proof fn law_flag_readback(bits: u32, offset: u32, on: bool, other: u32)
    by (bit_vector)
    requires
        offset < 32,
        other < 32,
        other != offset,
    ensures
        (with_flag(bits, offset, on) & (1u32 << offset) != 0) == on,
        with_flag(bits, offset, on) & (1u32 << other) == bits & (1u32 << other),
{
}

/// Writing a field of CONTROL1 makes it read back as written (when the value
/// fits the field) and leaves the bits outside the field unchanged.
pub proof fn law_field_readback(bits: u32, mask: u32, offset: u32, val: u32)
    by (bit_vector)
    requires
        mask == 0xf || mask == 0xff,
        offset <= 16,
        val <= mask,
    ensures
        (with_field(bits, mask, offset, val) >> offset) & mask == val,
        with_field(bits, mask, offset, val) & !(mask << offset) == bits & !(mask << offset),
{
}

/// The once-guard of the block's initialization: marks the block
/// initialized and says whether this call is the first, the one that must
/// configure it.
pub fn first_init(initialized: &mut bool) -> (first: bool)
    ensures
        first == !*old(initialized),
        *final(initialized),
{
    let first = !*initialized;
    *initialized = true;
    first
}

/// Which DCP channels are handed out.
#[derive(Clone, Copy)]
pub struct ChannelClaims {
    /// The AES-128 channel that uses a hardware key.
    pub aes_hw: bool,
    /// The AES-128 channel that uses a key written by software.
    pub aes_ram: bool,
    /// The SHA-256 channel.
    pub sha: bool,
}

impl ChannelClaims {
    /// No channel handed out.
    pub fn new() -> (c: ChannelClaims)
        ensures
            !c.aes_hw && !c.aes_ram && !c.sha,
    {
        ChannelClaims { aes_hw: false, aes_ram: false, sha: false }
    }
}

} // verus!
