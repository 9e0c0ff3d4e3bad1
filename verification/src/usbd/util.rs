//! Small helpers of the USB driver: endpoint address arithmetic, typed
//! descriptor addresses and iteration over set bits.

use core::marker::PhantomData;
use usb_device::endpoint::EndpointAddress;
use usb_device::UsbDirection;
use vstd::prelude::*;

verus! {

/// Direction bit of an endpoint address (set for IN endpoints).
pub const EP_DIR_IN: u8 = 0x80;

/// The index part of an endpoint address.
pub open spec fn ep_index(ep_addr: u8) -> usize {
    (ep_addr & 0x7fu8) as usize
}

/// Whether an endpoint address names an OUT (host to device) endpoint.
pub open spec fn ep_is_out(ep_addr: u8) -> bool {
    ep_addr & EP_DIR_IN == 0
}

/// The endpoint address with the given index and direction.
pub open spec fn ep_from_parts(index: usize, is_in: bool) -> u8 {
    (index as u8) | (if is_in { EP_DIR_IN } else { 0u8 })
}

/// `EndpointAddress::index` of usb-device: the address without its direction
/// bit.
#[verifier::external_body]
pub(crate) fn endpoint_index(ep_addr: u8) -> (r: usize)
    ensures
        r == ep_index(ep_addr),
{
    EndpointAddress::from(ep_addr).index()
}

/// `EndpointAddress::is_out` of usb-device: true when the direction bit is
/// clear.
#[verifier::external_body]
pub(crate) fn endpoint_is_out(ep_addr: u8) -> (r: bool)
    ensures
        r == ep_is_out(ep_addr),
{
    EndpointAddress::from(ep_addr).is_out()
}

/// `EndpointAddress::from_parts` of usb-device: the index truncated to a byte,
/// or-ed with the direction bit.
#[verifier::external_body]
pub(crate) fn endpoint_from_parts(index: usize, is_in: bool) -> (r: u8)
    ensures
        r == ep_from_parts(index, is_in),
{
    let dir = if is_in { UsbDirection::In } else { UsbDirection::Out };
    u8::from(EndpointAddress::from_parts(index, dir))
}

/// The position of the queue head of an endpoint in the queue head list.
pub open spec fn dqh_index(ep_addr: u8) -> int {
    2 * ep_index(ep_addr) + if ep_is_out(ep_addr) { 0int } else { 1int }
}

/// Maps an endpoint address to the index of its queue head.
pub fn epaddr2dqhidx(ep_addr: u8) -> (r: usize)
    ensures
        r == dqh_index(ep_addr),
{
    2 * endpoint_index(ep_addr) + if endpoint_is_out(ep_addr) { 0 } else { 1 }
}

/// An index below 128 survives being or-ed with either direction bit.
pub proof fn lemma_index_bits(i: u8)
    by (bit_vector)
    requires
        i < 128,
    ensures
        ((i | 0x80u8) & 0x7fu8) == i && ((i | 0x80u8) & 0x80u8) != 0,
        ((i | 0u8) & 0x7fu8) == i && ((i | 0u8) & 0x80u8) == 0,
{
}

/// Maps the index of a queue head back to its endpoint address.
pub fn dqhidx2epaddr(idx: usize) -> (r: u8)
    ensures
        r == ep_from_parts(idx / 2, idx % 2 == 1),
        idx < 256 ==> dqh_index(r) == idx,
{
    let r = endpoint_from_parts(idx / 2, idx % 2 == 1);
    proof {
        if idx < 256 {
            lemma_index_bits((idx / 2) as u8);
        }
    }
    r
}

/// The bit of an endpoint in the ENDPTPRIME / ENDPTCOMPLETE registers: bit
/// `index` for OUT endpoints, bit `16 + index` for IN endpoints.
pub open spec fn endpt_mask(ep_addr: u8) -> u32 {
    if ep_is_out(ep_addr) {
        1u32 << (ep_index(ep_addr) as u32)
    } else {
        1u32 << ((16 + ep_index(ep_addr)) as u32)
    }
}

/// The bit of an endpoint in the ENDPTPRIME / ENDPTCOMPLETE registers.
pub fn epaddr2endptmask(ep_addr: u8) -> (r: u32)
    requires
        if ep_is_out(ep_addr) {
            ep_index(ep_addr) < 32
        } else {
            ep_index(ep_addr) < 16
        },
    ensures
        r == endpt_mask(ep_addr),
{
    let index = endpoint_index(ep_addr);
    if endpoint_is_out(ep_addr) {
        1u32 << (index as u32)
    } else {
        1u32 << ((16 + index) as u32)
    }
}

/// Always contains the value zero.
pub struct Reserved {
    inner: u32,
}

impl Reserved {
    /// The value held.
    pub closed spec fn value(self) -> u32 {
        self.inner
    }

    /// A zeroed reserved word.
    pub fn new() -> (r: Reserved)
        ensures
            r.value() == 0,
    {
        Reserved { inner: 0 }
    }
}

/// The address of a descriptor of type `T`, never null.
pub struct Ref<T> {
    addr: usize,
    _type: PhantomData<T>,
}

impl<T> Ref<T> {
    /// The address held.
    pub closed spec fn addr(self) -> usize {
        self.addr
    }

    /// A reference to the descriptor at `addr`.
    pub fn new_unchecked(addr: usize) -> (r: Ref<T>)
        requires
            addr != 0,
        ensures
            r.addr() == addr,
    {
        Ref { addr, _type: PhantomData }
    }

    /// The address of the descriptor.
    pub fn as_ptr(&self) -> (r: usize)
        ensures
            r == self.addr(),
            r != 0,
    {
        proof {
            use_type_invariant(self);
        }
        self.addr
    }

    #[verifier::type_invariant]
    spec fn non_null(self) -> bool {
        self.addr != 0
    }
}

/// Endpoint bitmasks reported by a poll.
#[derive(Clone, Copy)]
pub struct Data {
    pub ep_in_complete: u16,
    pub ep_setup: u16,
    pub ep_out: u16,
}

/// A number shown in hexadecimal, as the driver's log messages print
/// register masks.
pub struct Hex<T>(pub T);

/// The ASCII character of the hexadecimal digit `d` (0..=15), in lower case.
pub open spec fn hex_char(d: int) -> u8 {
    if d < 10 {
        (48 + d) as u8
    } else {
        (87 + d) as u8
    }
}

/// The last `n` hexadecimal digits of `v`, most significant first.
pub open spec fn hex_digits(v: int, n: nat) -> Seq<u8>
    decreases n,
{
    if n == 0 {
        Seq::empty()
    } else {
        hex_digits(v / 16, (n - 1) as nat).push(hex_char(v % 16))
    }
}

/// The prefix `0x`.
pub open spec fn hex_prefix() -> Seq<u8> {
    seq![48u8, 120u8]
}

// Appends the last `n` hexadecimal digits of `v` to `out`.
fn push_hex_digits(out: &mut Vec<u8>, v: u32, n: usize)
    ensures
        final(out)@ == old(out)@ + hex_digits(v as int, n as nat),
    decreases n,
{
    if n > 0 {
        push_hex_digits(out, v / 16, n - 1);
        let d = v % 16;
        let c: u8 = if d < 10 { 48 + d as u8 } else { 87 + d as u8 };
        out.push(c);
        proof {
            assert(hex_digits(v as int, n as nat) == hex_digits((v / 16) as int, (n - 1) as nat).push(
                hex_char(v as int % 16),
            ));
        }
    }
}

impl Hex<u16> {
    /// The ASCII text of the number: `0x` and two digits up to `0xff`, four
    /// digits above.
    pub fn to_ascii(&self) -> (r: Vec<u8>)
        ensures
            r@ == hex_prefix() + hex_digits(self.0 as int, if self.0 <= 0xff { 2 } else { 4 }),
    {
        let mut out: Vec<u8> = Vec::new();
        out.push(48);
        out.push(120);
        let n: usize = if self.0 <= 0xff { 2 } else { 4 };
        push_hex_digits(&mut out, self.0 as u32, n);
        out
    }
}

impl Hex<u32> {
    /// The ASCII text of the number: `0x` and two digits up to `0xff`, four
    /// digits up to `0xffff`, and above that the upper and lower halves, four
    /// digits each, separated by `_`.
    pub fn to_ascii(&self) -> (r: Vec<u8>)
        ensures
            r@ == if self.0 <= 0xff {
                hex_prefix() + hex_digits(self.0 as int, 2)
            } else if self.0 <= 0xffff {
                hex_prefix() + hex_digits(self.0 as int, 4)
            } else {
                hex_prefix() + hex_digits(self.0 as int / 0x1_0000, 4) + seq![95u8] + hex_digits(
                    self.0 as int % 0x1_0000,
                    4,
                )
            },
    {
        let v = self.0;
        let mut out: Vec<u8> = Vec::new();
        out.push(48);
        out.push(120);
        if v <= 0xff {
            push_hex_digits(&mut out, v, 2);
        } else if v <= 0xffff {
            push_hex_digits(&mut out, v, 4);
        } else {
            push_hex_digits(&mut out, v / 0x1_0000, 4);
            out.push(95);
            push_hex_digits(&mut out, v % 0x1_0000, 4);
        }
        out
    }
}

/// Iterates over the indices of the bits of a word that are set to 1, from
/// the lowest to the highest.
pub struct OneIndices {
    inner: u32,
}

impl OneIndices {
    /// The bits not yet visited.
    pub closed spec fn remaining(self) -> u32 {
        self.inner
    }

    /// Starts iterating over the set bits of `word`.
    pub fn of(word: u32) -> (r: OneIndices)
        ensures
            r.remaining() == word,
    {
        OneIndices { inner: word }
    }

    /// Returns the index of the lowest bit not yet visited and marks it
    /// visited, or `None` once every set bit has been visited.
    pub fn next(&mut self) -> (r: Option<u8>)
        ensures
            old(self).remaining() == 0 ==> r is None && final(self).remaining() == 0,
            old(self).remaining() != 0 ==> {
                let i = r->0;
                &&& r is Some
                &&& i < 32
                &&& old(self).remaining() & (1u32 << i as u32) != 0
                &&& forall|j: u32| j < i ==> #[trigger] (old(self).remaining() & (1u32 << j)) == 0
                &&& final(self).remaining() == old(self).remaining() & !(1u32 << i as u32)
            },
    {
        if self.inner == 0 {
            None
        } else {
            let w = self.inner;
            let i = w.trailing_zeros();
            proof {
                vstd::std_specs::bits::axiom_u32_trailing_zeros(w);
                assert((w >> i) & 1u32 == 1u32 ==> w & (1u32 << i) != 0) by (bit_vector);
                assert forall|j: u32| j < i implies #[trigger] (w & (1u32 << j)) == 0 by {
                    assert((w >> j) & 1u32 == 0u32);
                    assert(j < 32 && (w >> j) & 1u32 == 0u32 ==> w & (1u32 << j) == 0)
                        by (bit_vector);
                }
            }
            self.inner = self.inner & !(1u32 << i);
            Some(i as u8)
        }
    }
}

} // verus!
