//! Device transfer descriptors (table 54-60 of the ULRM), as the values the
//! driver reads and writes.

use super::token::Token;
use super::util::Ref;
use vstd::prelude::*;

verus! {

/// Terminate value of a descriptor pointer: no descriptor follows.
pub const NO_NEXT_DTD: usize = 1;

/// Size of a buffer page.
pub const PAGE_SIZE: usize = 0x1000;

/// The five buffer pages of a descriptor whose buffer starts at `addr`: the
/// address itself, then the following 4 KiB page boundaries.
pub open spec fn buffer_pages(addr: usize) -> Seq<usize> {
    let base = (addr & !0xfffusize) as int;
    seq![
        addr,
        (base + 0x1000) as usize,
        (base + 0x2000) as usize,
        (base + 0x3000) as usize,
        (base + 0x4000) as usize,
    ]
}

/// Device transfer descriptor.
#[allow(non_camel_case_types)]
pub struct dTD {
    next_dtd: usize,
    token: Token,
    page0: usize,
    page1: usize,
    pages: [usize; 3],
}

impl dTD {
    /// The next descriptor pointer.
    pub closed spec fn next_dtd_ptr(self) -> usize {
        self.next_dtd
    }

    /// The token.
    pub closed spec fn token(self) -> Token {
        self.token
    }

    /// The five buffer pointers.
    pub closed spec fn pages(self) -> Seq<usize> {
        seq![self.page0, self.page1, self.pages[0], self.pages[1], self.pages[2]]
    }

    /// A descriptor with no successor, an empty token and null buffers.
    pub fn new() -> (d: dTD)
        ensures
            d.next_dtd_ptr() == NO_NEXT_DTD,
            d.token().bits() == 0,
            d.pages() == seq![0usize, 0, 0, 0, 0],
    {
        dTD { next_dtd: NO_NEXT_DTD, token: Token::empty(), page0: 0, page1: 0, pages: [0, 0, 0] }
    }

    /// Points the descriptor at the buffer that starts at `addr`.
    pub fn set_pages(&mut self, addr: usize)
        requires
            (addr & !0xfffusize) + 0x4000 <= usize::MAX,
        ensures
            final(self).pages() == buffer_pages(addr),
            final(self).next_dtd_ptr() == old(self).next_dtd_ptr(),
            final(self).token() == old(self).token(),
    {
        let mut a = addr;
        self.page0 = a;
        a = a & !0xfffusize;
        a = a + PAGE_SIZE;
        self.page1 = a;
        let mut i: usize = 0;
        while i < 3
            invariant
                i <= 3,
                (addr & !0xfffusize) + 0x4000 <= usize::MAX,
                a == (addr & !0xfffusize) + 0x1000 * (i + 1),
                self.page0 == addr,
                self.page1 == (addr & !0xfffusize) + 0x1000,
                forall|k: int| 0 <= k < i ==> self.pages[k] == (addr & !0xfffusize) + 0x1000 * (k + 2),
                self.next_dtd == old(self).next_dtd,
                self.token == old(self).token,
            decreases 3 - i,
        {
            a = a + PAGE_SIZE;
            self.pages[i] = a;
            i = i + 1;
        }
        assert(self.pages() =~= buffer_pages(addr));
    }

    /// Writes the token.
    pub fn set_token(&mut self, token: Token)
        ensures
            final(self).token() == token,
            final(self).next_dtd_ptr() == old(self).next_dtd_ptr(),
            final(self).pages() == old(self).pages(),
    {
        self.token = token;
    }

    /// Links `dtd` as the next descriptor, or terminates the list for `None`.
    pub fn set_next_dtd(&mut self, dtd: Option<Ref<dTD>>)
        ensures
            final(self).next_dtd_ptr() == match dtd {
                Some(d) => d.addr(),
                None => NO_NEXT_DTD,
            },
            final(self).token() == old(self).token(),
            final(self).pages() == old(self).pages(),
    {
        self.next_dtd = match dtd {
            Some(d) => d.as_ptr(),
            None => NO_NEXT_DTD,
        };
    }

    /// Reads the token.
    pub fn get_token(&self) -> (r: Token)
        ensures
            r == self.token(),
    {
        self.token
    }

    /// The next descriptor pointer.
    pub fn next_dtd_addr(&self) -> (r: usize)
        ensures
            r == self.next_dtd_ptr(),
    {
        self.next_dtd
    }

    /// The five buffer pointers, in the order the controller uses them.
    pub fn page_list(&self) -> (r: [usize; 5])
        ensures
            r@ == self.pages(),
    {
        let r = [self.page0, self.page1, self.pages[0], self.pages[1], self.pages[2]];
        assert(r@ =~= self.pages());
        r
    }
}

} // verus!
