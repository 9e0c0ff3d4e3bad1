//! The decisions of the USB device driver: endpoint allocation, the state kept
//! between polls, the handling of SETUP packets and the values written to the
//! endpoint control registers.

use super::dqh::MAX_PACKET_SIZE_LIMIT;
use super::token::{Status, Token, STATUS_ACTIVE, TOKEN_IOC};
use super::util::{
    dqh_index, endpoint_from_parts, endpoint_index, endpoint_is_out, ep_from_parts, ep_index,
    ep_is_out, epaddr2dqhidx, Data, OneIndices,
};
use vstd::prelude::*;

verus! {

/// Number of queue heads: one IN and one OUT for endpoints 0 and 1.
pub const ENDPOINTS: usize = 4;

/// USBSTS: USB reset received.
pub const USBSTS_URI: u32 = 0x40;

/// USBSTS: start of frame received.
pub const USBSTS_SRE: u32 = 0x80;

/// USBSTS: port change detected.
pub const USBSTS_PCI: u32 = 0x4;

/// USBSTS: USB interrupt.
pub const USBSTS_UI: u32 = 0x1;

/// ENDPTCTRL: TX endpoint enable.
pub const ENDPTCTRL_TXE: u32 = 0x80_0000;

/// ENDPTCTRL: TX data toggle reset.
pub const ENDPTCTRL_TXR: u32 = 0x40_0000;

/// ENDPTCTRL: RX endpoint enable.
pub const ENDPTCTRL_RXE: u32 = 0x80;

/// ENDPTCTRL: RX data toggle reset.
pub const ENDPTCTRL_RXR: u32 = 0x40;

/// Offset of the TX endpoint type in ENDPTCTRL.
pub const ENDPTCTRL_TXT_OFFSET: u32 = 18;

/// Mask of the TX endpoint type in ENDPTCTRL (before shifting).
pub const ENDPTCTRL_TXT_MASK: u32 = 0b11;

/// Offset of the RX endpoint type in ENDPTCTRL.
pub const ENDPTCTRL_RXT_OFFSET: u32 = 2;

/// Mask that the driver clears before writing the RX endpoint type (before
/// shifting); it is empty, so the write only sets bits.
pub const ENDPTCTRL_RXT_MASK: u32 = 0b00;

/// Endpoint type code of bulk endpoints.
pub const BULK_TYPE: u32 = 0b10;

/// Transfer type of an endpoint.
#[derive(Clone, Copy, PartialEq, Eq, Structural)]
pub enum EndpointKind {
    Control,
    Isochronous,
    Bulk,
    Interrupt,
}

/// The 2-bit code of a transfer type in ENDPTCTRL.
pub open spec fn kind_code(kind: EndpointKind) -> u32 {
    match kind {
        EndpointKind::Control => 0b00,
        EndpointKind::Isochronous => 0b01,
        EndpointKind::Bulk => 0b10,
        EndpointKind::Interrupt => 0b11,
    }
}

/// Why an endpoint operation was refused.
#[derive(Clone, Copy, PartialEq, Eq, Structural)]
pub enum EndpointError {
    /// No queue head is left for the requested endpoint.
    EndpointOverflow,
    /// The endpoint is already allocated, or does not exist.
    InvalidEndpoint,
    /// The data does not fit in one packet.
    EndpointMemoryOverflow,
    /// A transfer is still in progress.
    WouldBlock,
}

/// The size class of a static transfer buffer.
#[derive(Clone, Copy, PartialEq, Eq, Structural)]
pub enum BufferClass {
    /// A 64-byte buffer.
    Small,
    /// A 512-byte buffer.
    Large,
}

/// The buffer class for packets of `max_packet_size` bytes.
pub open spec fn buffer_class_for(max_packet_size: u16) -> BufferClass {
    if max_packet_size <= 64 {
        BufferClass::Small
    } else {
        BufferClass::Large
    }
}

/// Chooses the static buffer class for packets of `max_packet_size` bytes.
pub fn buffer_class(max_packet_size: u16) -> (r: BufferClass)
    requires
        max_packet_size <= 512,
    ensures
        r == buffer_class_for(max_packet_size),
{
    if max_packet_size <= 64 {
        BufferClass::Small
    } else {
        BufferClass::Large
    }
}

/// Whether the bit of queue head `ep_addr` is set in `used_dqhs`.
pub open spec fn ep_used(used_dqhs: u8, ep_addr: u8) -> bool {
    used_dqhs & (1u8 << (dqh_index(ep_addr) as u8)) != 0
}

/// Whether bit `k` of the queue-head mask is set.
pub open spec fn dqh_bit(used_dqhs: u8, k: int) -> bool {
    used_dqhs & (1u8 << k as u8) != 0
}

/// The first endpoint, from index `index` upwards, in direction `is_in`,
/// whose queue head exists and is not in use.
pub open spec fn free_endpoint_from(used_dqhs: u8, index: nat, is_in: bool) -> Option<u8>
    decreases ENDPOINTS - index,
{
    if 2 * index + (if is_in { 1int } else { 0int }) >= ENDPOINTS {
        None
    } else if !ep_used(used_dqhs, ep_from_parts(index as usize, is_in)) {
        Some(ep_from_parts(index as usize, is_in))
    } else {
        free_endpoint_from(used_dqhs, index + 1, is_in)
    }
}

/// An endpoint address built from an index below 128 gives that index and
/// direction back.
pub proof fn lemma_ep_from_parts(index: usize, is_in: bool)
    requires
        index < 128,
    ensures
        ep_index(ep_from_parts(index, is_in)) == index,
        ep_is_out(ep_from_parts(index, is_in)) == !is_in,
        dqh_index(ep_from_parts(index, is_in)) == 2 * index + if is_in { 1int } else { 0int },
{
    super::util::lemma_index_bits(index as u8);
}

/// The endpoint found by the search has a queue head.
pub proof fn lemma_free_endpoint_exists(used_dqhs: u8, index: nat, is_in: bool)
    ensures
        free_endpoint_from(used_dqhs, index, is_in) matches Some(a) ==> dqh_index(a) < ENDPOINTS
            && !ep_used(used_dqhs, a) && ep_index(a) >= index && ep_is_out(a) == !is_in,
    decreases ENDPOINTS - index,
{
    if 2 * index + (if is_in { 1int } else { 0int }) < ENDPOINTS {
        lemma_ep_from_parts(index as usize, is_in);
        lemma_free_endpoint_exists(used_dqhs, index + 1, is_in);
    }
}

/// The endpoint that an allocation request is given: the requested one when
/// its queue head exists and is free, else the lowest free endpoint other than
/// the control endpoint 0.
pub open spec fn chosen_endpoint(used_dqhs: u8, is_in: bool, requested: Option<u8>) -> Result<
    u8,
    EndpointError,
> {
    match requested {
        Some(a) => if dqh_index(a) >= ENDPOINTS {
            Err(EndpointError::EndpointOverflow)
        } else if ep_used(used_dqhs, a) {
            Err(EndpointError::InvalidEndpoint)
        } else {
            Ok(a)
        },
        None => match free_endpoint_from(used_dqhs, 1, is_in) {
            Some(a) => Ok(a),
            None => Err(EndpointError::EndpointOverflow),
        },
    }
}

/// What the driver does with the hardware after an endpoint was allocated.
#[derive(Clone, Copy)]
pub struct EndpointSetup {
    /// The allocated endpoint.
    pub ep_addr: u8,
    /// The static buffer to install for OUT endpoints other than 0.
    pub buffer: Option<BufferClass>,
    /// Whether ENDPTCTRL must be configured (every endpoint but 0).
    pub configure: bool,
}

/// The state that the driver keeps between calls.
#[derive(Clone, Copy)]
pub struct BusState {
    /// Bitmask of the queue heads in use.
    pub used_dqhs: u8,
    /// SETUP packets received and not yet read, by endpoint.
    pub setupstat: Option<u16>,
    /// IN transfers completed and not yet reported, by endpoint.
    pub ep_in_complete: Option<u16>,
    /// Whether the last poll reported nothing.
    pub last_poll_was_none: bool,
    /// Control endpoints whose data stage will be followed by a STATUS OUT.
    pub pre_status_out: u16,
    /// Control endpoints whose STATUS OUT is still to be reported.
    pub status_out: u16,
}

/// The state after the IN transfers of the endpoints in `done` completed: the
/// completions are recorded, and the pending STATUS OUT stages of those
/// endpoints become due.
pub open spec fn after_in_complete(s: BusState, done: u16) -> BusState {
    BusState {
        ep_in_complete: if done == 0 {
            s.ep_in_complete
        } else {
            Some(s.ep_in_complete.unwrap_or(0) | done)
        },
        pre_status_out: s.pre_status_out & !done,
        status_out: s.status_out | (s.pre_status_out & done),
        ..s
    }
}

/// What a poll reports.
#[derive(Clone, Copy)]
pub enum PollOutcome {
    /// The host reset the bus.
    Reset,
    /// Endpoints have data or completed transfers.
    Data(Data),
    /// Nothing happened.
    Nothing,
}

/// The result of a poll: what to report and what the driver must still do to
/// the hardware.
#[derive(Clone, Copy)]
pub struct PollDecision {
    pub outcome: PollOutcome,
    /// The port change bit must be cleared.
    pub port_change: bool,
    /// IN endpoints whose completed transfer descriptor must be retired.
    pub tx_complete: u16,
    /// This is the first of a run of empty polls.
    pub first_empty: bool,
}

/// A standard request carried by a SETUP packet, as far as the driver acts on
/// it.
#[derive(Clone, Copy, PartialEq, Eq, Structural)]
pub enum SetupRequest {
    /// SET_ADDRESS: no data stage.
    SetAddress,
    /// SET_CONFIGURATION or SET_INTERFACE: the data toggles of the allocated
    /// endpoints must be reset.
    ResetEndpoints,
    /// GET_DESCRIPTOR: a STATUS OUT follows the IN data stage.
    GetDescriptor,
    /// Anything else; the driver does not support it.
    Unsupported,
}

/// The request carried by a SETUP packet that starts with `packet`.
pub open spec fn setup_request_of(packet: Seq<u8>) -> SetupRequest {
    if packet[0] == 0 && packet[1] == 5 {
        SetupRequest::SetAddress
    } else if (packet[0] == 0 && packet[1] == 9) || (packet[0] == 1 && packet[1] == 11) {
        SetupRequest::ResetEndpoints
    } else if packet[0] == 128 && packet[1] == 6 {
        SetupRequest::GetDescriptor
    } else {
        SetupRequest::Unsupported
    }
}

/// Classifies a SETUP packet by its request type and request bytes.
pub fn classify_setup(packet: &[u8]) -> (r: SetupRequest)
    requires
        packet@.len() >= 4,
    ensures
        r == setup_request_of(packet@),
{
    let request_type = packet[0];
    let request = packet[1];
    if request_type == 0 && request == 5 {
        SetupRequest::SetAddress
    } else if (request_type == 0 && request == 9) || (request_type == 1 && request == 11) {
        SetupRequest::ResetEndpoints
    } else if request_type == 128 && request == 6 {
        SetupRequest::GetDescriptor
    } else {
        SetupRequest::Unsupported
    }
}

/// Bit facts about the one-hot masks of the two endpoints 0 and 1.
proof fn lemma_mask_bits(p: u16, s: u16, e: u16, d: u16, m: u16)
    by (bit_vector)
    requires
        m == 1u16 || m == 2u16,
        d == 0 || d & m == 0,
    ensures
        d & m == 0,
        m != 0,
        0u16 | m == m,
        d | m != 0,
        (p & !d) & !m == p & !(d | m),
        (s | (p & d)) | ((p & !d) & m) == s | (p & (d | m)),
        (e | d) | m == e | (d | m),
        e | (0u16 | m) == e | m,
        d == 0 ==> d | m == m,
        p & m != 0 ==> s | m == s | (p & m),
        p & m == 0 ==> s == s | (p & m) && p == p & !m,
        p & !0u16 == p,
        s | (p & 0u16) == s,
{
}

/// The one-hot mask of endpoint 0 or 1.
proof fn lemma_one_hot(ix: u16)
    by (bit_vector)
    requires
        ix < 2,
    ensures
        (1u16 << ix) == 1u16 || (1u16 << ix) == 2u16,
        (1u16 << ix) == ((1u32 << (ix as u32)) as u16),
{
}

/// One step of the walk over the completed IN transfers of endpoints 0 and
/// 1: the bit `ii` moves from the remaining set to the done set.
proof fn lemma_walk_step(rem: u32, d: u16, ii: u32, tx: u32)
    by (bit_vector)
    requires
        rem < 4,
        d < 4,
        ii < 2,
        rem & (1u32 << ii) != 0,
        rem & (d as u32) == 0,
        (rem | (d as u32)) == tx,
    ensures
        rem & !(1u32 << ii) < rem,
        (rem & !(1u32 << ii)) & ((d | ((1u32 << ii) as u16)) as u32) == 0,
        ((rem & !(1u32 << ii)) | ((d | ((1u32 << ii) as u16)) as u32)) == tx,
        (d | ((1u32 << ii) as u16)) < 4,
        d & ((1u32 << ii) as u16) == 0,
{
}

/// Facts about the remaining set of the walk over at most two bits.
proof fn lemma_walk_bounds(rem: u32, done: u16, tx: u32, p: u16, s: u16)
    by (bit_vector)
    requires
        rem < 4,
    ensures
        p & !0u16 == p,
        s | (p & 0u16) == s,
        rem & (1u32 << 0u32) == 0 && rem & (1u32 << 1u32) == 0 ==> rem == 0,
        tx & (0u16 as u32) == 0 && (tx | (0u16 as u32)) == tx,
        rem == 0 && (rem | (done as u32)) == tx && done < 4 ==> done == (tx as u16),
{
}

/// The OUT completion bits survive dropping the IN completion bits.
proof fn lemma_complete_low(complete: u32, complete_reg: u32)
    by (bit_vector)
    requires
        (complete == complete_reg && complete_reg >> 16u32 == 0) || complete == complete_reg
            & 0xffffu32,
    ensures
        complete as u16 == complete_reg as u16,
        complete != 0 <==> complete as u16 != 0,
{
}

/// Hands out the SETUP packet pending on endpoint `index`: its bit, once,
/// after which the bit is cleared (and an empty set is dropped).
pub open spec fn take_setup_spec(s: BusState, index: usize) -> (BusState, Option<u16>) {
    let mask = 1u16 << index as u16;
    let pending = s.setupstat is Some && s.setupstat->0 & mask != 0;
    let left: Option<u16> = match s.setupstat {
        Some(bits) => if pending {
            if bits & !mask == 0 {
                None
            } else {
                Some(bits & !mask)
            }
        } else if bits == 0 {
            None
        } else {
            Some(bits)
        },
        None => None,
    };
    (BusState { setupstat: left, ..s }, if pending { Some(mask) } else { None })
}

/// What a poll reports and the state after it, from the USBSTS,
/// ENDPTSETUPSTAT and ENDPTCOMPLETE registers: a bus reset first; otherwise
/// new SETUP packets are recorded, completed IN transfers are retired, and
/// a STATUS OUT stage that became due is reported once no IN completion is
/// pending.
pub open spec fn poll_spec(old: BusState, sts: u32, setupstat_reg: u32, complete_reg: u32) -> (
    BusState,
    PollDecision,
) {
    if sts & USBSTS_URI != 0 {
        (
            BusState { last_poll_was_none: false, ..old },
            PollDecision {
                outcome: PollOutcome::Reset,
                port_change: false,
                tx_complete: 0,
                first_empty: false,
            },
        )
    } else {
        let setup = setupstat_reg as u16;
        let done = (complete_reg >> 16) as u16;
        let out = complete_reg as u16;
        let s0 = BusState { setupstat: if setup != 0 { Some(setup) } else { old.setupstat }, ..old };
        let s1 = after_in_complete(s0, done);
        let in_done = s1.ep_in_complete.unwrap_or(0);
        let status_now = s1.status_out != 0 && in_done == 0;
        if setup != 0 || s1.ep_in_complete is Some || s1.status_out != 0 || out != 0 {
            (
                BusState {
                    ep_in_complete: None,
                    status_out: if status_now { 0 } else { s1.status_out },
                    last_poll_was_none: false,
                    ..s1
                },
                PollDecision {
                    outcome: PollOutcome::Data(
                        Data {
                            ep_in_complete: in_done,
                            ep_setup: setup,
                            ep_out: if status_now { s1.status_out } else { out },
                        },
                    ),
                    port_change: sts & USBSTS_PCI != 0,
                    tx_complete: done,
                    first_empty: false,
                },
            )
        } else {
            (
                BusState { last_poll_was_none: true, ..s1 },
                PollDecision {
                    outcome: PollOutcome::Nothing,
                    port_change: sts & USBSTS_PCI != 0,
                    tx_complete: done,
                    first_empty: !old.last_poll_was_none,
                },
            )
        }
    }
}

impl BusState {
    /// The state of a freshly initialized controller.
    pub fn new() -> (s: BusState)
        ensures
            bus_state_wf(s),
            s.used_dqhs == 0,
            s.setupstat is None,
            s.ep_in_complete is None,
            !s.last_poll_was_none,
            s.pre_status_out == 0,
            s.status_out == 0,
    {
        BusState {
            used_dqhs: 0,
            setupstat: None,
            ep_in_complete: None,
            last_poll_was_none: false,
            pre_status_out: 0,
            status_out: 0,
        }
    }

    /// Whether the queue head of `ep_addr` is in use.
    pub fn is_ep_being_used(&self, ep_addr: u8) -> (r: bool)
        requires
            dqh_index(ep_addr) < 8,
        ensures
            r == ep_used(self.used_dqhs, ep_addr),
    {
        let mask: u8 = 1u8 << (epaddr2dqhidx(ep_addr) as u8);
        self.used_dqhs & mask != 0
    }

    /// Marks the queue head of `ep_addr` as in use.
    pub fn mark_ep_as_used(&mut self, ep_addr: u8)
        requires
            dqh_index(ep_addr) < 8,
        ensures
            *final(self) == (BusState {
                used_dqhs: old(self).used_dqhs | (1u8 << (dqh_index(ep_addr) as u8)),
                ..*old(self)
            }),
    {
        let mask: u8 = 1u8 << (epaddr2dqhidx(ep_addr) as u8);
        self.used_dqhs = self.used_dqhs | mask;
    }

    /// Picks the endpoint for an allocation request.
    pub fn choose_endpoint(&self, is_in: bool, requested: Option<u8>) -> (r: Result<
        u8,
        EndpointError,
    >)
        ensures
            r == chosen_endpoint(self.used_dqhs, is_in, requested),
    {
        match requested {
            Some(a) => {
                if epaddr2dqhidx(a) >= ENDPOINTS {
                    Err(EndpointError::EndpointOverflow)
                } else if self.is_ep_being_used(a) {
                    Err(EndpointError::InvalidEndpoint)
                } else {
                    Ok(a)
                }
            },
            None => {
                let mut index: usize = 1;
                loop
                    invariant
                        1 <= index <= 2,
                        requested is None,
                        free_endpoint_from(self.used_dqhs, 1, is_in) == free_endpoint_from(
                            self.used_dqhs,
                            index as nat,
                            is_in,
                        ),
                    decreases ENDPOINTS - index,
                {
                    let a = endpoint_from_parts(index, is_in);
                    proof {
                        lemma_ep_from_parts(index, is_in);
                    }
                    assert(dqh_index(a) == 2 * index + if is_in { 1int } else { 0int });
                    assert(a == ep_from_parts(index, is_in));
                    if epaddr2dqhidx(a) >= ENDPOINTS {
                        assert(free_endpoint_from(self.used_dqhs, index as nat, is_in) is None);
                        return Err(EndpointError::EndpointOverflow);
                    }
                    if !self.is_ep_being_used(a) {
                        assert(free_endpoint_from(self.used_dqhs, index as nat, is_in) == Some(a));
                        return Ok(a);
                    }
                    assert(free_endpoint_from(self.used_dqhs, index as nat, is_in)
                        == free_endpoint_from(self.used_dqhs, (index + 1) as nat, is_in));
                    index = index + 1;
                }
            },
        }
    }

    /// Allocates an endpoint: picks it, marks it as used, and says which
    /// buffer to install and whether to configure the endpoint control
    /// register.
    pub fn alloc_ep(
        &mut self,
        is_in: bool,
        requested: Option<u8>,
        kind: EndpointKind,
        max_packet_size: u16,
    ) -> (r: Result<EndpointSetup, EndpointError>)
        requires
            kind != EndpointKind::Isochronous,
            chosen_endpoint(old(self).used_dqhs, is_in, requested) is Ok ==> max_packet_size
                <= MAX_PACKET_SIZE_LIMIT,
            chosen_endpoint(old(self).used_dqhs, is_in, requested) matches Ok(a) && ep_is_out(a)
                && ep_index(a) != 0 ==> max_packet_size <= 512,
        ensures
            match chosen_endpoint(old(self).used_dqhs, is_in, requested) {
                Ok(a) => {
                    &&& r matches Ok(setup)
                    &&& setup.ep_addr == a
                    &&& setup.buffer == if ep_is_out(a) && ep_index(a) != 0 {
                        Some(buffer_class_for(max_packet_size))
                    } else {
                        None
                    }
                    &&& setup.configure == (ep_index(a) != 0)
                    &&& *final(self) == (BusState {
                        used_dqhs: old(self).used_dqhs | (1u8 << (dqh_index(a) as u8)),
                        ..*old(self)
                    })
                },
                Err(e) => r == Err::<EndpointSetup, EndpointError>(e) && *final(self) == *old(
                    self,
                ),
            },
    {
        proof {
            lemma_free_endpoint_exists(self.used_dqhs, 1, is_in);
        }
        let a = match self.choose_endpoint(is_in, requested) {
            Ok(a) => a,
            Err(e) => return Err(e),
        };
        let buffer = if endpoint_is_out(a) && endpoint_index(a) != 0 {
            Some(buffer_class(max_packet_size))
        } else {
            None
        };
        self.mark_ep_as_used(a);
        Ok(EndpointSetup { ep_addr: a, buffer, configure: endpoint_index(a) != 0 })
    }

    /// The endpoint addresses of the queue heads in use, lowest index first.
    pub fn allocated_eps(&self) -> (r: Vec<u8>)
        ensures
            forall|i: int|
                0 <= i < r@.len() ==> {
                    &&& #[trigger] dqh_index(r@[i]) < 8
                    &&& ep_used(self.used_dqhs, r@[i])
                    &&& r@[i] == ep_from_parts((dqh_index(r@[i]) / 2) as usize, dqh_index(r@[i]) % 2 == 1)
                },
            forall|k: int|
                0 <= k < 8 && #[trigger] dqh_bit(self.used_dqhs, k) ==> exists|i: int|
                    0 <= i < r@.len() && #[trigger] dqh_index(r@[i]) == k,
            forall|i: int, j: int| 0 <= i < j < r@.len() ==> dqh_index(r@[i]) < dqh_index(r@[j]),
    {
        let mut out: Vec<u8> = Vec::new();
        let mut k: usize = 0;
        while k < 8
            invariant
                k <= 8,
                forall|i: int|
                    0 <= i < out@.len() ==> {
                        &&& #[trigger] dqh_index(out@[i]) < k
                        &&& ep_used(self.used_dqhs, out@[i])
                        &&& out@[i] == ep_from_parts((dqh_index(out@[i]) / 2) as usize, dqh_index(out@[i]) % 2 == 1)
                    },
                forall|kk: int|
                    0 <= kk < k && #[trigger] dqh_bit(self.used_dqhs, kk) ==> exists|i: int|
                        0 <= i < out@.len() && #[trigger] dqh_index(out@[i]) == kk,
                forall|i: int, j: int| 0 <= i < j < out@.len() ==> dqh_index(out@[i]) < dqh_index(out@[j]),
            decreases 8 - k,
        {
            let mask: u8 = 1u8 << (k as u8);
            if self.used_dqhs & mask != 0 {
                let a = super::util::dqhidx2epaddr(k);
                assert(dqh_index(a) == k);
                let ghost prev = out@;
                out.push(a);
                assert(dqh_index(out@[out@.len() - 1]) == k);
                assert forall|kk: int|
                    0 <= kk < k + 1 && #[trigger] dqh_bit(self.used_dqhs, kk) implies exists|i: int|
                        0 <= i < out@.len() && #[trigger] dqh_index(out@[i]) == kk by {
                    if kk < k {
                        let i = choose|i: int| 0 <= i < prev.len() && #[trigger] dqh_index(prev[i]) == kk;
                        assert(out@[i] == prev[i]);
                    } else {
                        assert(dqh_index(out@[out@.len() - 1]) == kk);
                    }
                }
            } else {
                assert forall|kk: int|
                    0 <= kk < k + 1 && #[trigger] dqh_bit(self.used_dqhs, kk) implies exists|i: int|
                        0 <= i < out@.len() && #[trigger] dqh_index(out@[i]) == kk by {
                    assert(kk != k);
                }
            }
            k = k + 1;
        }
        out
    }

    /// Records that the IN transfer of endpoint `index` completed.
    pub fn record_in_complete(&mut self, index: usize)
        requires
            index < ENDPOINTS / 2,
        ensures
            *final(self) == after_in_complete(*old(self), (1u16 << index as u16)),
    {
        let mask: u16 = 1u16 << (index as u16);
        self.ep_in_complete = match self.ep_in_complete {
            Some(bits) => Some(bits | mask),
            None => Some(mask),
        };
        if self.pre_status_out & mask != 0 {
            self.status_out = self.status_out | mask;
            self.pre_status_out = self.pre_status_out & !mask;
        }
        proof {
            lemma_one_hot(index as u16);
            lemma_mask_bits(
                old(self).pre_status_out,
                old(self).status_out,
                old(self).ep_in_complete.unwrap_or(0),
                0,
                mask,
            );
        }
    }

    /// Hands out the SETUP packet pending on endpoint `index`, if any: returns
    /// the endpoint's bit and clears it.
    pub fn take_setup(&mut self, index: usize) -> (r: Option<u16>)
        requires
            old(self).setupstat is Some ==> index < 16,
        ensures
            (*final(self), r) == take_setup_spec(*old(self), index),
    {
        let r = match self.setupstat {
            Some(bits) => {
                let mask: u16 = 1u16 << (index as u16);
                if bits & mask != 0 {
                    self.setupstat = Some(bits & !mask);
                    Some(mask)
                } else {
                    None
                }
            },
            None => None,
        };
        if let Some(0) = self.setupstat {
            self.setupstat = None;
        }
        r
    }

    /// Acts on a SETUP request: a GET_DESCRIPTOR makes the control endpoint
    /// expect a STATUS OUT after its data stage.
    pub fn apply_setup(&mut self, request: SetupRequest)
        ensures
            *final(self) == if request == SetupRequest::GetDescriptor {
                BusState { pre_status_out: 1, ..*old(self) }
            } else {
                *old(self)
            },
    {
        if let SetupRequest::GetDescriptor = request {
            self.pre_status_out = 1;
        }
    }

    /// Decides what a poll reports from the USBSTS, ENDPTSETUPSTAT and
    /// ENDPTCOMPLETE registers, and updates the state.
    pub fn poll(&mut self, sts: u32, setupstat_reg: u32, complete_reg: u32) -> (r: PollDecision)
        requires
            sts & USBSTS_URI == 0 ==> complete_reg >> 16 < 4,
        ensures
            (*final(self), r) == poll_spec(*old(self), sts, setupstat_reg, complete_reg),
    {
        if sts & USBSTS_URI != 0 {
            self.last_poll_was_none = false;
            return PollDecision {
                outcome: PollOutcome::Reset,
                port_change: false,
                tx_complete: 0,
                first_empty: false,
            };
        }
        let setupstat = setupstat_reg as u16;
        let mut complete = complete_reg;
        let port_change = sts & USBSTS_PCI != 0;
        if setupstat != 0 {
            self.setupstat = Some(setupstat);
        }
        let ghost s0 = *self;
        let txcomplete = complete >> 16;
        if txcomplete != 0 {
            let mut bits = OneIndices::of(txcomplete);
            let ghost mut done: u16 = 0;
            proof {
                lemma_walk_bounds(txcomplete, 0, txcomplete, s0.pre_status_out, s0.status_out);
                assert(after_in_complete(s0, 0) == s0);
            }
            loop
                invariant
                    txcomplete < 4,
                    bits.remaining() < 4,
                    done < 4,
                    bits.remaining() & (done as u32) == 0,
                    (bits.remaining() | (done as u32)) == txcomplete,
                    *self == after_in_complete(s0, done),
                ensures
                    bits.remaining() == 0,
                    (bits.remaining() | (done as u32)) == txcomplete,
                    done < 4,
                    *self == after_in_complete(s0, done),
                decreases bits.remaining(),
            {
                let ghost rem = bits.remaining();
                match bits.next() {
                    None => break,
                    Some(i) => {
                        proof {
                            lemma_walk_bounds(rem, done, txcomplete, 0, 0);
                            assert(i < 2) by {
                                if i >= 2 {
                                    assert(rem & (1u32 << 0u32) == 0);
                                    assert(rem & (1u32 << 1u32) == 0);
                                }
                            }
                        }
                        let ghost before = *self;
                        self.record_in_complete(i as usize);
                        proof {
                            let m = 1u16 << ((i as usize) as u16);
                            let d = done;
                            let ii = i as u32;
                            let s = s0;
                            lemma_one_hot(i as u16);
                            lemma_walk_step(rem, d, ii, txcomplete);
                            lemma_mask_bits(
                                s.pre_status_out,
                                s.status_out,
                                s.ep_in_complete.unwrap_or(0),
                                d,
                                m,
                            );
                            let target = after_in_complete(s, (d | m) as u16);
                            assert(before == after_in_complete(s, d));
                            assert(*self == after_in_complete(before, m));
                            if d == 0 {
                                assert(self.ep_in_complete == target.ep_in_complete);
                            } else {
                                assert(self.ep_in_complete == target.ep_in_complete);
                            }
                            assert(*self == target);
                            done = d | m;
                        }
                    },
                }
            }
            proof {
                lemma_walk_bounds(bits.remaining(), done, txcomplete, 0, 0);
            }
            complete = complete & 0xffff;
        } else {
            proof {
                assert(after_in_complete(s0, 0) == s0) by {
                    lemma_walk_bounds(0, 0, 0, s0.pre_status_out, s0.status_out);
                }
            }
        }
        proof {
            lemma_complete_low(complete, complete_reg);
        }
        if setupstat != 0 || self.ep_in_complete.is_some() || self.status_out != 0 || complete
            != 0 {
            let ep_in_complete = match self.ep_in_complete {
                Some(bits) => bits,
                None => 0,
            };
            self.ep_in_complete = None;
            let ep_out = if self.status_out != 0 && ep_in_complete == 0 {
                let s = self.status_out;
                self.status_out = 0;
                s
            } else {
                complete as u16
            };
            self.last_poll_was_none = false;
            return PollDecision {
                outcome: PollOutcome::Data(Data { ep_in_complete, ep_setup: setupstat, ep_out }),
                port_change,
                tx_complete: txcomplete as u16,
                first_empty: false,
            };
        }
        let first_empty = !self.last_poll_was_none;
        self.last_poll_was_none = true;
        PollDecision {
            outcome: PollOutcome::Nothing,
            port_change,
            tx_complete: txcomplete as u16,
            first_empty,
        }
    }
}


/// The value of ENDPTCTRL after configuring the transfer type of one direction
/// of an endpoint: the type of that direction is written, and when the other
/// direction is not enabled its type is set to bulk (a control type left on
/// an unused direction disturbs the data toggle of the used one).
pub open spec fn configured_endptctrl(ctrl: u32, is_out: bool, kind: EndpointKind) -> u32 {
    let ty = kind_code(kind);
    if is_out {
        let c1 = (ctrl & !(ENDPTCTRL_RXT_MASK << ENDPTCTRL_RXT_OFFSET)) | (ty << ENDPTCTRL_RXT_OFFSET);
        if c1 & ENDPTCTRL_TXE == 0 {
            (c1 & !(ENDPTCTRL_TXT_MASK << ENDPTCTRL_TXT_OFFSET)) | (BULK_TYPE << ENDPTCTRL_TXT_OFFSET)
        } else {
            c1
        }
    } else {
        let c1 = (ctrl & !(ENDPTCTRL_TXT_MASK << ENDPTCTRL_TXT_OFFSET)) | (ty << ENDPTCTRL_TXT_OFFSET);
        if c1 & ENDPTCTRL_RXE == 0 {
            (c1 & !(ENDPTCTRL_RXT_MASK << ENDPTCTRL_RXT_OFFSET)) | (BULK_TYPE << ENDPTCTRL_RXT_OFFSET)
        } else {
            c1
        }
    }
}

/// Configuring one direction of an endpoint writes the requested transfer
/// type into that direction's type field: for IN the TX type field (bits 18
/// and 19) reads back as the type code; for OUT the RX type bits (2 and 3)
/// include the code. An unused opposite direction (not enabled) is given the
/// bulk type, and the enable bits are never changed.
pub proof fn law_endptctrl_type(ctrl: u32, is_out: bool, kind: EndpointKind)
    ensures
        ({
            let code: u32 = match kind {
                EndpointKind::Control => 0,
                EndpointKind::Isochronous => 1,
                EndpointKind::Bulk => 2,
                EndpointKind::Interrupt => 3,
            };
            let r = configured_endptctrl(ctrl, is_out, kind);
            &&& !is_out ==> (r >> 18) & 3 == code
            &&& !is_out && ctrl & 0x80 == 0 ==> (r >> 2) & 2 == 2
            &&& is_out ==> (r >> 2) & code == code
            &&& is_out && ctrl & 0x80_0000 == 0 ==> (r >> 18) & 3 == 2
            &&& r & 0x80_0080 == ctrl & 0x80_0080
        }),
{
    let code: u32 = match kind {
        EndpointKind::Control => 0,
        EndpointKind::Isochronous => 1,
        EndpointKind::Bulk => 2,
        EndpointKind::Interrupt => 3,
    };
    assert(kind_code(kind) == code);
    let r = configured_endptctrl(ctrl, is_out, kind);
    if is_out {
        let c1 = (ctrl & !(0u32 << 2u32)) | (code << 2u32);
        assert(r == if c1 & 0x80_0000 == 0 { (c1 & !(3u32 << 18u32)) | (2u32 << 18u32) } else { c1 });
        assert(code < 4 ==> {
            let c1 = (ctrl & !(0u32 << 2u32)) | (code << 2u32);
            let r = if c1 & 0x80_0000 == 0 { (c1 & !(3u32 << 18u32)) | (2u32 << 18u32) } else { c1 };
            &&& (r >> 2u32) & code == code
            &&& ctrl & 0x80_0000 == 0 ==> (r >> 18u32) & 3 == 2
            &&& r & 0x80_0080 == ctrl & 0x80_0080
        }) by (bit_vector);
    } else {
        let c1 = (ctrl & !(3u32 << 18u32)) | (code << 18u32);
        assert(r == if c1 & 0x80 == 0 { (c1 & !(0u32 << 2u32)) | (2u32 << 2u32) } else { c1 });
        assert(code < 4 ==> {
            let c1 = (ctrl & !(3u32 << 18u32)) | (code << 18u32);
            let r = if c1 & 0x80 == 0 { (c1 & !(0u32 << 2u32)) | (2u32 << 2u32) } else { c1 };
            &&& (r >> 18u32) & 3 == code
            &&& ctrl & 0x80 == 0 ==> (r >> 2u32) & 2 == 2
            &&& r & 0x80_0080 == ctrl & 0x80_0080
        }) by (bit_vector);
    }
}

/// The code of a transfer type in ENDPTCTRL.
pub fn endpoint_type_code(kind: EndpointKind) -> (r: u32)
    ensures
        r == kind_code(kind),
        r < 4,
{
    match kind {
        EndpointKind::Control => 0b00,
        EndpointKind::Isochronous => 0b01,
        EndpointKind::Bulk => BULK_TYPE,
        EndpointKind::Interrupt => 0b11,
    }
}

/// Computes ENDPTCTRL1 after configuring endpoint 1 in one direction.
pub fn configure_endptctrl(ctrl: u32, is_out: bool, kind: EndpointKind) -> (r: u32)
    ensures
        r == configured_endptctrl(ctrl, is_out, kind),
{
    let ty = endpoint_type_code(kind);
    if is_out {
        let c1 = (ctrl & !(ENDPTCTRL_RXT_MASK << ENDPTCTRL_RXT_OFFSET)) | (ty << ENDPTCTRL_RXT_OFFSET);
        if c1 & ENDPTCTRL_TXE == 0 {
            (c1 & !(ENDPTCTRL_TXT_MASK << ENDPTCTRL_TXT_OFFSET)) | (BULK_TYPE << ENDPTCTRL_TXT_OFFSET)
        } else {
            c1
        }
    } else {
        let c1 = (ctrl & !(ENDPTCTRL_TXT_MASK << ENDPTCTRL_TXT_OFFSET)) | (ty << ENDPTCTRL_TXT_OFFSET);
        if c1 & ENDPTCTRL_RXE == 0 {
            (c1 & !(ENDPTCTRL_RXT_MASK << ENDPTCTRL_RXT_OFFSET)) | (BULK_TYPE << ENDPTCTRL_RXT_OFFSET)
        } else {
            c1
        }
    }
}

/// Computes ENDPTCTRL1 after enabling one direction of endpoint 1.
pub fn enable_endptctrl(ctrl: u32, is_out: bool) -> (r: u32)
    ensures
        r == if is_out { ctrl | ENDPTCTRL_RXE } else { ctrl | ENDPTCTRL_TXE },
{
    if is_out {
        ctrl | ENDPTCTRL_RXE
    } else {
        ctrl | ENDPTCTRL_TXE
    }
}

/// Computes ENDPTCTRL1 after resetting the data toggle of one enabled
/// direction of endpoint 1.
pub fn reset_endptctrl(ctrl: u32, is_out: bool) -> (r: u32)
    requires
        if is_out { ctrl & ENDPTCTRL_RXE != 0 } else { ctrl & ENDPTCTRL_TXE != 0 },
    ensures
        r == if is_out { ctrl | ENDPTCTRL_RXR } else { ctrl | ENDPTCTRL_TXR },
{
    if is_out {
        ctrl | ENDPTCTRL_RXR
    } else {
        ctrl | ENDPTCTRL_TXR
    }
}

/// The DEVICEADDR value that installs `addr` at once.
pub fn device_address_value(addr: u8) -> (r: u32)
    ensures
        r == (addr as u32) << 25,
{
    (addr as u32) << 25u32
}

/// The queue head of `ep_addr`, when the controller has one for it.
pub fn dqh_slot(ep_addr: u8) -> (r: Option<usize>)
    ensures
        r == if dqh_index(ep_addr) < ENDPOINTS { Some(dqh_index(ep_addr) as usize) } else { None },
{
    let idx = epaddr2dqhidx(ep_addr);
    if idx < ENDPOINTS {
        Some(idx)
    } else {
        None
    }
}

/// Whether a descriptor that the controller retired reports a failure: still
/// active, halted, or with a buffer or transaction error.
pub open spec fn transfer_failed_spec(status: Status) -> bool {
    status.bits() & 0x80 != 0 || status.bits() & 0x20 != 0 || status.bits() & 0x08 != 0
        || status.bits() & 0x40 != 0
}

/// Whether a retired descriptor reports a failed transfer.
pub fn transfer_failed(status: Status) -> (r: bool)
    ensures
        r == transfer_failed_spec(status),
{
    status.is_active() || status.has_errors() || status.is_halted()
}

/// The number of bytes received into a buffer of `capacity` bytes when the
/// controller left `left` bytes of it untouched.
pub fn received_len(capacity: usize, left: u16) -> (r: usize)
    requires
        left <= capacity,
    ensures
        r == capacity - left,
{
    capacity - left as usize
}

/// The token of a descriptor that transfers `n` bytes: active, with an
/// interrupt on completion.
pub open spec fn transfer_token_bits(n: u32) -> u32 {
    (n << 16) | TOKEN_IOC | (STATUS_ACTIVE as u32)
}

proof fn lemma_transfer_token_bits(m: u32)
    by (bit_vector)
    requires
        m < 0x5000,
    ensures
        ((((0u32 & !(0xffffu32 << 16u32)) | (m << 16u32)) & !0xffu32) | (0x80u8 as u32)) | 0x8000u32
            == (m << 16u32) | 0x8000u32 | 0x80u32,
        (((m << 16u32) | 0x8000u32 | 0x80u32) >> 16u32) as u16 == m as u16,
        ((m << 16u32) | 0x8000u32 | 0x80u32) & 0x8000u32 != 0,
        ((m << 16u32) | 0x8000u32 | 0x80u32) as u8 == 0x80u8,
{
}

/// Builds the token of a descriptor that transfers `n` bytes.
pub fn transfer_token(n: usize) -> (t: Token)
    requires
        n < 0x5000,
    ensures
        t.bits() == transfer_token_bits(n as u32),
        t.total_bytes() == n,
        t.ioc(),
        t.status_bits() == STATUS_ACTIVE,
{
    let mut token = Token::empty();
    token.set_total_bytes(n);
    token.set_status(Status::active());
    token.set_ioc();
    proof {
        lemma_transfer_token_bits(n as u32);
    }
    token
}

/// Decides whether `n` bytes can be queued on an IN endpoint whose packets
/// hold `max_packet_size` bytes and whose previous transfer is `busy` or not.
pub fn check_write(n: usize, max_packet_size: u16, busy: bool) -> (r: Result<(), EndpointError>)
    ensures
        r == if n > max_packet_size {
            Err(EndpointError::EndpointMemoryOverflow)
        } else if busy {
            Err(EndpointError::WouldBlock)
        } else {
            Ok(())
        },
{
    if n > max_packet_size as usize {
        Err(EndpointError::EndpointMemoryOverflow)
    } else if busy {
        Err(EndpointError::WouldBlock)
    } else {
        Ok(())
    }
}

/// Whether the state holds no empty cached mask: a recorded set of pending
/// SETUP packets, or of completed IN transfers, always names an endpoint.
pub open spec fn bus_state_wf(s: BusState) -> bool {
    s.setupstat != Some(0u16) && s.ep_in_complete != Some(0u16)
}

/// Without a bus reset, data received on an OUT endpoint (a bit in the low
/// half of ENDPTCOMPLETE) and a new SETUP packet are always reported: the
/// poll answers `Data`, with the SETUP bits as read, and with the OUT bits as
/// read unless a STATUS OUT stage is being reported instead (which needs a
/// pending or armed STATUS OUT).
pub proof fn law_poll_reports_received_data(
    s: BusState,
    sts: u32,
    setupstat_reg: u32,
    complete_reg: u32,
)
    requires
        sts & USBSTS_URI == 0,
        complete_reg % 0x1_0000 != 0 || setupstat_reg % 0x1_0000 != 0,
    ensures
        poll_spec(s, sts, setupstat_reg, complete_reg).1.outcome matches PollOutcome::Data(d) && d.ep_setup
            == setupstat_reg % 0x1_0000 && (s.status_out == 0 && s.pre_status_out == 0 ==> d.ep_out
            == complete_reg % 0x1_0000),
{
    assert(setupstat_reg as u16 == setupstat_reg % 0x1_0000) by (bit_vector);
    assert(complete_reg as u16 == complete_reg % 0x1_0000) by (bit_vector);
    let done = (complete_reg >> 16) as u16;
    assert(0u16 & done == 0u16 && 0u16 | 0u16 == 0u16) by (bit_vector);
}

/// Every operation keeps the state well formed: starting from a well-formed
/// state (the initial one is), a poll, handing out a SETUP packet, recording
/// IN completions, acting on a SETUP request and allocating an endpoint never
/// leave an empty mask cached.
pub proof fn law_state_stays_well_formed(
    s: BusState,
    sts: u32,
    setupstat_reg: u32,
    complete_reg: u32,
    index: usize,
    done: u16,
    bit: u8,
)
    requires
        bus_state_wf(s),
    ensures
        bus_state_wf(poll_spec(s, sts, setupstat_reg, complete_reg).0),
        bus_state_wf(take_setup_spec(s, index).0),
        bus_state_wf(after_in_complete(s, done)),
        bus_state_wf(BusState { pre_status_out: 1, ..s }),
        bus_state_wf(BusState { used_dqhs: s.used_dqhs | bit, ..s }),
{
    assert forall|x: u16, d: u16| d != 0 implies #[trigger] (x | d) != 0u16 by {
        assert(d != 0 ==> x | d != 0u16) by (bit_vector);
    }
    let setup = setupstat_reg as u16;
    let s0 = BusState { setupstat: if setup != 0 { Some(setup) } else { s.setupstat }, ..s };
    assert(bus_state_wf(s0));
    let d = (complete_reg >> 16) as u16;
    let s1 = after_in_complete(s0, d);
    if d != 0 {
        assert((s0.ep_in_complete.unwrap_or(0) | d) != 0u16);
    }
    assert(bus_state_wf(s1));
    if done != 0 {
        assert((s.ep_in_complete.unwrap_or(0) | done) != 0u16);
    }
}

/// A bus reset is reported whenever USBSTS says so, whatever else the
/// registers hold, and it leaves every pending bit of the state in place.
pub proof fn law_reset_first(s: BusState, sts: u32, setupstat_reg: u32, complete_reg: u32)
    requires
        sts & USBSTS_URI != 0,
    ensures
        poll_spec(s, sts, setupstat_reg, complete_reg).1.outcome is Reset,
        poll_spec(s, sts, setupstat_reg, complete_reg).0 == (BusState {
            last_poll_was_none: false,
            ..s
        }),
{
}

/// The STATUS OUT stage of a control read is reported after its IN data
/// stage: once a GET_DESCRIPTOR armed it, the poll that sees the IN transfer
/// of endpoint 0 complete reports that completion only, and the next poll,
/// with nothing new in the registers, reports the STATUS OUT of endpoint 0.
pub proof fn law_status_out_after_data(s: BusState, sts: u32)
    requires
        s.pre_status_out == 1,
        s.status_out == 0,
        s.ep_in_complete is None,
        sts & USBSTS_URI == 0,
    ensures
        ({
            let (s1, d1) = poll_spec(s, sts, 0, 1u32 << 16);
            let (s2, d2) = poll_spec(s1, sts, 0, 0);
            &&& d1.outcome == PollOutcome::Data(Data { ep_in_complete: 1, ep_setup: 0, ep_out: 0 })
            &&& d1.tx_complete == 1
            &&& s1.status_out == 1
            &&& s1.pre_status_out == 0
            &&& d2.outcome == PollOutcome::Data(Data { ep_in_complete: 0, ep_setup: 0, ep_out: 1 })
            &&& s2.status_out == 0
            &&& s2.pre_status_out == 0
        }),
{
    lemma_status_stage_bits();
}

proof fn lemma_status_stage_bits()
    by (bit_vector)
    ensures
        ((1u32 << 16u32) >> 16u32) as u16 == 1u16,
        (1u32 << 16u32) as u16 == 0u16,
        (0u32 >> 16u32) as u16 == 0u16,
        0u32 as u16 == 0u16,
        0u16 | 1u16 == 1u16,
        1u16 & !1u16 == 0u16,
        0u16 | (1u16 & 1u16) == 1u16,
        0u16 & !0u16 == 0u16,
        1u16 | (0u16 & 0u16) == 1u16,
{
}

/// An endpoint is allocated at most once: after an allocation request for an
/// endpoint succeeded, every further request for that endpoint is refused.
pub proof fn law_allocate_once(used_dqhs: u8, is_in: bool, is_in2: bool, a: u8)
    requires
        chosen_endpoint(used_dqhs, is_in, Some(a)) == Ok::<u8, EndpointError>(a),
    ensures
        chosen_endpoint(used_dqhs | (1u8 << (dqh_index(a) as u8)), is_in2, Some(a)) == Err::<
            u8,
            EndpointError,
        >(EndpointError::InvalidEndpoint),
{
    let k = dqh_index(a) as u8;
    lemma_set_bit_u8(used_dqhs, k);
}

proof fn lemma_set_bit_u8(used: u8, k: u8)
    by (bit_vector)
    requires
        k < 8,
    ensures
        (used | (1u8 << k)) & (1u8 << k) != 0,
{
}

/// A SETUP packet is handed out once: after the bit of an endpoint was taken,
/// taking it again finds nothing until a poll records a new packet, and the
/// bits of the other endpoints stay pending.
pub proof fn law_setup_taken_once(s: BusState, index: usize, other: usize)
    requires
        index < 16,
        other < 16,
        other != index,
    ensures
        take_setup_spec(take_setup_spec(s, index).0, index).1 is None,
        ({
            let bits = s.setupstat.unwrap_or(0);
            let after = take_setup_spec(s, index).0.setupstat.unwrap_or(0);
            after & (1u16 << other as u16) == bits & (1u16 << other as u16)
        }),
{
    let bits = s.setupstat.unwrap_or(0);
    lemma_clear_bit_u16(bits, index as u16, other as u16);
}

proof fn lemma_clear_bit_u16(bits: u16, i: u16, j: u16)
    by (bit_vector)
    requires
        i < 16,
        j < 16,
        i != j,
    ensures
        (bits & !(1u16 << i)) & (1u16 << i) == 0,
        (bits & !(1u16 << i)) & (1u16 << j) == bits & (1u16 << j),
        0u16 & (1u16 << j) == 0,
{
}

/// Retiring IN completions does not depend on their order: retiring the
/// endpoints of `a` and then those of `b` leaves the same state as retiring
/// both at once.
pub proof fn law_in_complete_commutes(s: BusState, a: u16, b: u16)
    requires
        a & b == 0,
        a != 0,
        b != 0,
    ensures
        after_in_complete(after_in_complete(s, a), b) == after_in_complete(s, a | b),
{
    let p = s.pre_status_out;
    let so = s.status_out;
    let e = s.ep_in_complete.unwrap_or(0);
    lemma_merge_bits(p, so, e, a, b);
}

proof fn lemma_merge_bits(p: u16, so: u16, e: u16, a: u16, b: u16)
    by (bit_vector)
    requires
        a & b == 0,
        a != 0,
    ensures
        (p & !a) & !b == p & !(a | b),
        (so | (p & a)) | ((p & !a) & b) == so | (p & (a | b)),
        (e | a) | b == e | (a | b),
        a | b != 0,
{
}

} // verus!
