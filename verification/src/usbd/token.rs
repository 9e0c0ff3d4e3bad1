//! The token word of transfer descriptors (table 54-62 of the ULRM).

use vstd::prelude::*;

verus! {

/// Bit of the token that enables an interrupt when the transfer completes.
pub const TOKEN_IOC: u32 = 0x8000;

/// Status bit that marks a descriptor as active.
pub const STATUS_ACTIVE: u8 = 0x80;

/// Token of a transfer descriptor: total bytes in bits 16..=31, IOC in bit 15
/// and the status in bits 0..=7.
#[derive(Clone, Copy)]
pub struct Token {
    inner: u32,
}

impl Token {
    /// The raw word.
    pub closed spec fn bits(self) -> u32 {
        self.inner
    }

    /// The total-bytes field.
    pub open spec fn total_bytes(self) -> u16 {
        (self.bits() >> 16) as u16
    }

    /// The status field.
    pub open spec fn status_bits(self) -> u8 {
        self.bits() as u8
    }

    /// Whether interrupt-on-complete is set.
    pub open spec fn ioc(self) -> bool {
        self.bits() & TOKEN_IOC != 0
    }

    /// The word after writing `n` into the total-bytes field.
    pub open spec fn with_total_bytes(self, n: u32) -> u32 {
        (self.bits() & !(0xffffu32 << 16u32)) | (n << 16u32)
    }

    /// The word after setting interrupt-on-complete.
    pub open spec fn with_ioc(self) -> u32 {
        self.bits() | TOKEN_IOC
    }

    /// The word after writing `status` into the status field.
    pub open spec fn with_status(self, status: u8) -> u32 {
        (self.bits() & !0xffu32) | (status as u32)
    }

    /// A token with every field cleared.
    pub fn empty() -> (t: Token)
        ensures
            t.bits() == 0,
    {
        Token { inner: 0 }
    }

    /// The token that the controller wrote as `bits`.
    pub fn from_bits(bits: u32) -> (t: Token)
        ensures
            t.bits() == bits,
    {
        Token { inner: bits }
    }

    /// The word to hand to the controller.
    pub fn to_bits(self) -> (r: u32)
        ensures
            r == self.bits(),
    {
        self.inner
    }

    /// Writes the number of bytes to transfer.
    pub fn set_total_bytes(&mut self, n: usize)
        requires
            n < 0x5000,
        ensures
            final(self).bits() == old(self).with_total_bytes(n as u32),
            final(self).total_bytes() == n,
    {
        self.inner = self.inner & !(0xffffu32 << 16u32);
        self.inner = self.inner | ((n as u32) << 16u32);
        proof {
            let b = old(self).inner;
            let m = n as u32;
            assert((((b & !(0xffffu32 << 16u32)) | (m << 16u32)) >> 16u32) as u16 == m as u16)
                by (bit_vector)
                requires
                    m < 0x5000u32,
            ;
        }
    }

    /// Reads the number of bytes field.
    pub fn get_total_bytes(self) -> (r: u16)
        ensures
            r == self.total_bytes(),
    {
        (self.inner >> 16u32) as u16
    }

    /// Enables interrupts on complete.
    pub fn set_ioc(&mut self)
        ensures
            final(self).bits() == old(self).with_ioc(),
    {
        self.inner = self.inner | TOKEN_IOC;
    }

    /// Reads the status field.
    pub fn get_status(self) -> (s: Status)
        ensures
            s.bits() == self.status_bits(),
    {
        Status { inner: self.inner as u8 }
    }

    /// Writes the status field.
    pub fn set_status(&mut self, status: Status)
        ensures
            final(self).bits() == old(self).with_status(status.bits()),
    {
        self.inner = self.inner & !0xffu32;
        self.inner = self.inner | (status.inner as u32);
    }

    /// Clears the status field.
    pub fn clear_status(&mut self)
        ensures
            final(self).bits() == old(self).with_status(0),
    {
        self.inner = self.inner & !0xffu32;
        proof {
            let b = old(self).inner;
            assert((b & !0xffu32) | (0u8 as u32) == b & !0xffu32) by (bit_vector);
        }
    }
}

/// Status byte of a transfer descriptor.
#[derive(Clone, Copy)]
pub struct Status {
    inner: u8,
}

impl Status {
    /// The raw byte.
    pub closed spec fn bits(self) -> u8 {
        self.inner
    }

    /// A status with only the active bit set.
    pub fn active() -> (s: Status)
        ensures
            s.bits() == STATUS_ACTIVE,
    {
        Status { inner: STATUS_ACTIVE }
    }

    /// Whether the descriptor is still being processed by the controller.
    pub fn is_active(self) -> (r: bool)
        ensures
            r == (self.bits() & 0x80 != 0),
    {
        self.inner & STATUS_ACTIVE != 0
    }

    /// Whether the controller halted on this descriptor.
    pub fn is_halted(self) -> (r: bool)
        ensures
            r == (self.bits() & 0x40 != 0),
    {
        self.inner & 0x40u8 != 0
    }

    /// Whether a data buffer error occurred.
    pub fn has_data_buffer_error(self) -> (r: bool)
        ensures
            r == (self.bits() & 0x20 != 0),
    {
        self.inner & 0x20u8 != 0
    }

    /// Whether a transaction error occurred.
    pub fn has_transaction_error(self) -> (r: bool)
        ensures
            r == (self.bits() & 0x08 != 0),
    {
        self.inner & 0x08u8 != 0
    }

    /// Whether any error occurred.
    pub fn has_errors(self) -> (r: bool)
        ensures
            r == (self.bits() & 0x20 != 0 || self.bits() & 0x08 != 0),
    {
        self.has_data_buffer_error() || self.has_transaction_error()
    }
}

} // verus!
