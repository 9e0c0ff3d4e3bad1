//! Endpoint queue heads (table 54-56 of the ULRM), as the values the driver
//! reads and writes.

use super::dtd::{dTD, NO_NEXT_DTD};
use super::token::Token;
use super::util::{Ref, Reserved};
use vstd::prelude::*;

verus! {

/// Bytes of a SETUP packet.
pub const SETUP_BYTES: usize = 8;

/// Largest packet size that a non-isochronous endpoint may declare.
pub const MAX_PACKET_SIZE_LIMIT: u16 = 0x400;

/// Endpoint capabilities word (table 54-57 of the ULRM): Mult in bits 30..=31,
/// ZLT in bit 29, maximum packet length in bits 16..=26.
#[derive(Clone, Copy)]
pub struct Caps {
    inner: u32,
}

impl Caps {
    /// The raw word.
    pub closed spec fn bits(self) -> u32 {
        self.inner
    }

    /// The maximum packet size field.
    pub open spec fn spec_max_packet_size(self) -> u16 {
        (self.bits() >> 16) as u16
    }

    /// A zeroed capabilities word.
    pub fn empty() -> (c: Caps)
        ensures
            c.bits() == 0,
    {
        Caps { inner: 0 }
    }

    /// Capabilities valid for non isochronous endpoints: Mult = 0, ZLT = 0
    /// and the given maximum packet size.
    pub fn new(max_packet_size: u16) -> (c: Caps)
        requires
            max_packet_size <= MAX_PACKET_SIZE_LIMIT,
        ensures
            c.bits() == (max_packet_size as u32) << 16,
            c.spec_max_packet_size() == max_packet_size,
    {
        let mult: u32 = 0;
        let zlt: u32 = 0;
        let inner = (mult << 30u32) | (zlt << 29u32) | ((max_packet_size as u32) << 16u32);
        proof {
            let m = max_packet_size as u32;
            assert(((0u32 << 30u32) | (0u32 << 29u32) | (m << 16u32)) == m << 16u32
                && ((m << 16u32) >> 16u32) as u16 == m as u16) by (bit_vector)
                requires m <= 0x400u32;
        }
        Caps { inner }
    }

    /// The word to hand to the controller.
    pub fn to_bits(self) -> (r: u32)
        ensures
            r == self.bits(),
    {
        self.inner
    }

    /// The maximum packet size.
    pub fn max_packet_size(self) -> (r: u16)
        ensures
            r == self.spec_max_packet_size(),
    {
        (self.inner >> 16u32) as u16
    }
}

/// Endpoint queue head.
#[allow(non_camel_case_types)]
pub struct dQH {
    caps: Caps,
    current_dtd: usize,
    next_dtd: usize,
    token: Token,
    pages: [usize; 5],
    reserved: Reserved,
    setup: [u8; 8],
    addr: usize,
}

impl dQH {
    /// The capabilities word.
    pub closed spec fn caps(self) -> Caps {
        self.caps
    }

    /// The current descriptor pointer.
    pub closed spec fn current_dtd_ptr(self) -> usize {
        self.current_dtd
    }

    /// The next descriptor pointer.
    pub closed spec fn next_dtd_ptr(self) -> usize {
        self.next_dtd
    }

    /// The token overlay.
    pub closed spec fn token(self) -> Token {
        self.token
    }

    /// The buffer pointers.
    pub closed spec fn pages(self) -> Seq<usize> {
        self.pages@
    }

    /// The bytes of the last SETUP packet.
    pub closed spec fn setup(self) -> Seq<u8> {
        self.setup@
    }

    /// The address of the buffer of the endpoint.
    pub closed spec fn addr(self) -> usize {
        self.addr
    }

    /// A queue head with no capabilities, no descriptors and zeroed buffers.
    pub fn new() -> (q: dQH)
        ensures
            q.caps().bits() == 0,
            q.current_dtd_ptr() == NO_NEXT_DTD,
            q.next_dtd_ptr() == NO_NEXT_DTD,
            q.token().bits() == 0,
            q.pages() == seq![0usize, 0, 0, 0, 0],
            q.setup() == seq![0u8, 0, 0, 0, 0, 0, 0, 0],
            q.addr() == 0,
    {
        let q = dQH {
            caps: Caps::empty(),
            current_dtd: NO_NEXT_DTD,
            next_dtd: NO_NEXT_DTD,
            token: Token::empty(),
            pages: [0, 0, 0, 0, 0],
            reserved: Reserved::new(),
            setup: [0, 0, 0, 0, 0, 0, 0, 0],
            addr: 0,
        };
        assert(q.pages@ =~= seq![0usize, 0, 0, 0, 0]);
        assert(q.setup@ =~= seq![0u8, 0, 0, 0, 0, 0, 0, 0]);
        q
    }

    /// Clears the capabilities and the current descriptor pointer.
    pub fn clear(&mut self)
        ensures
            final(self).caps().bits() == 0,
            final(self).current_dtd_ptr() == NO_NEXT_DTD,
            final(self).next_dtd_ptr() == old(self).next_dtd_ptr(),
            final(self).token() == old(self).token(),
            final(self).pages() == old(self).pages(),
            final(self).setup() == old(self).setup(),
            final(self).addr() == old(self).addr(),
    {
        self.caps = Caps::empty();
        self.current_dtd = NO_NEXT_DTD;
    }

    /// Configures the endpoint for the given maximum packet size.
    pub fn set_max_packet_size(&mut self, max_packet_size: u16)
        requires
            max_packet_size <= MAX_PACKET_SIZE_LIMIT,
        ensures
            final(self).caps().bits() == (max_packet_size as u32) << 16,
            final(self).caps().spec_max_packet_size() == max_packet_size,
            final(self).current_dtd_ptr() == old(self).current_dtd_ptr(),
            final(self).next_dtd_ptr() == old(self).next_dtd_ptr(),
            final(self).token() == old(self).token(),
            final(self).addr() == old(self).addr(),
    {
        self.caps = Caps::new(max_packet_size);
    }

    /// The maximum packet size of the endpoint.
    pub fn get_max_packet_size(&self) -> (r: u16)
        ensures
            r == self.caps().spec_max_packet_size(),
    {
        self.caps.max_packet_size()
    }

    /// The address of the buffer of the endpoint.
    pub fn get_address(&self) -> (r: usize)
        ensures
            r == self.addr(),
    {
        self.addr
    }

    /// Records the address of the buffer of the endpoint.
    pub fn set_address(&mut self, addr: usize)
        ensures
            final(self).addr() == addr,
            final(self).caps() == old(self).caps(),
            final(self).current_dtd_ptr() == old(self).current_dtd_ptr(),
            final(self).next_dtd_ptr() == old(self).next_dtd_ptr(),
            final(self).token() == old(self).token(),
    {
        self.addr = addr;
    }

    /// The descriptor being executed, or `None` while the field holds no
    /// 32-byte aligned pointer (the controller has not written it yet).
    pub fn get_current_dtd(&self) -> (r: Option<Ref<dTD>>)
        ensures
            match r {
                Some(d) => self.current_dtd_ptr() & 0x1f == 0 && d.addr() == self.current_dtd_ptr()
                    && self.current_dtd_ptr() != 0,
                None => self.current_dtd_ptr() & 0x1f != 0 || self.current_dtd_ptr() == 0,
            },
    {
        let p = self.current_dtd;
        if p & 0x1f != 0 || p == 0 {
            None
        } else {
            Some(Ref::new_unchecked(p))
        }
    }

    /// The next descriptor, or `None` when the terminate value is stored.
    pub fn get_next_dtd(&self) -> (r: Option<Ref<dTD>>)
        ensures
            match r {
                Some(d) => self.next_dtd_ptr() != NO_NEXT_DTD && self.next_dtd_ptr() != 0
                    && d.addr() == self.next_dtd_ptr(),
                None => self.next_dtd_ptr() == NO_NEXT_DTD || self.next_dtd_ptr() == 0,
            },
    {
        let p = self.next_dtd;
        if p == NO_NEXT_DTD || p == 0 {
            None
        } else {
            Some(Ref::new_unchecked(p))
        }
    }

    /// The token overlay.
    pub fn get_token(&self) -> (r: Token)
        ensures
            r == self.token(),
    {
        self.token
    }

    /// Stores the terminate value in the current descriptor pointer.
    pub fn clear_current_dtd(&mut self)
        ensures
            final(self).current_dtd_ptr() == NO_NEXT_DTD,
            final(self).caps() == old(self).caps(),
            final(self).next_dtd_ptr() == old(self).next_dtd_ptr(),
            final(self).token() == old(self).token(),
            final(self).addr() == old(self).addr(),
    {
        self.current_dtd = NO_NEXT_DTD;
    }

    /// Stores the address of `dtd`, or the terminate value for `None`, in the
    /// next descriptor pointer.
    pub fn set_next_dtd(&mut self, dtd: Option<Ref<dTD>>)
        ensures
            final(self).next_dtd_ptr() == match dtd {
                Some(d) => d.addr(),
                None => NO_NEXT_DTD,
            },
            final(self).caps() == old(self).caps(),
            final(self).current_dtd_ptr() == old(self).current_dtd_ptr(),
            final(self).token() == old(self).token(),
            final(self).addr() == old(self).addr(),
    {
        self.next_dtd = match dtd {
            Some(d) => d.as_ptr(),
            None => NO_NEXT_DTD,
        };
    }

    /// Copies the SETUP packet into the first `SETUP_BYTES` bytes of `buf`.
    pub fn copy_setup_bytes(&self, buf: &mut [u8])
        requires
            old(buf)@.len() >= SETUP_BYTES,
        ensures
            final(buf)@.len() == old(buf)@.len(),
            final(buf)@.subrange(0, SETUP_BYTES as int) == self.setup(),
            final(buf)@.subrange(SETUP_BYTES as int, final(buf)@.len() as int)
                == old(buf)@.subrange(SETUP_BYTES as int, old(buf)@.len() as int),
    {
        let mut i: usize = 0;
        while i < SETUP_BYTES
            invariant
                i <= SETUP_BYTES,
                buf@.len() == old(buf)@.len(),
                buf@.len() >= SETUP_BYTES,
                self.setup@.len() == SETUP_BYTES,
                forall|k: int| 0 <= k < i ==> buf@[k] == self.setup@[k],
                forall|k: int| SETUP_BYTES <= k < buf@.len() ==> buf@[k] == old(buf)@[k],
            decreases SETUP_BYTES - i,
        {
            buf[i] = self.setup[i];
            i = i + 1;
        }
        assert(buf@.subrange(0, SETUP_BYTES as int) =~= self.setup());
        assert(buf@.subrange(SETUP_BYTES as int, buf@.len() as int) =~= old(buf)@.subrange(
            SETUP_BYTES as int,
            old(buf)@.len() as int,
        ));
    }
}

} // verus!
