//! SHA-256 channel of the DCP: the buffering of input into 64-byte blocks and
//! the commands that feed them to the engine.

use super::{with_flag, ChannelClaims, Control0, Control1, HashSelect};
use crate::util::round_down;
use vstd::prelude::*;

verus! {

/// The DCP has a 32-bit byte counter and won't accept more than 512 MiB of
/// input.
pub const MAX_COUNT: usize = 512 * 1024 * 1024;

/// SHA-256 block size.
pub const BLOCK_SIZE: usize = 64;

/// Bytes of a SHA-256 digest.
pub const DIGEST_SIZE: usize = 32;

/// A partial block: a `heapless::Vec<u8, U64>` held opaquely.
#[verifier::external_body]
pub struct BlockBuffer {
    inner: heapless::Vec<u8, heapless::consts::U64>,
}

/// The bytes a block buffer holds.
pub uninterp spec fn block_buffer_contents(b: BlockBuffer) -> Seq<u8>;

impl BlockBuffer {
    /// `heapless::Vec::new`: an empty vector.
    #[verifier::external_body]
    pub(crate) fn new() -> (b: BlockBuffer)
        ensures
            block_buffer_contents(b) == Seq::<u8>::empty(),
    {
        BlockBuffer { inner: heapless::Vec::new() }
    }

    /// `heapless::Vec::len` (through its slice): the number of bytes held,
    /// never above the capacity of 64.
    #[verifier::external_body]
    pub(crate) fn len(&self) -> (r: usize)
        ensures
            r == block_buffer_contents(*self).len(),
            r <= 64,
    {
        self.inner.len()
    }

    /// `heapless::Vec::extend_from_slice`: appends `other` when it fits in the
    /// remaining capacity, otherwise leaves the vector unchanged and fails.
    #[verifier::external_body]
    pub(crate) fn extend_from_slice(&mut self, other: &[u8]) -> (r: Result<(), ()>)
        ensures
            block_buffer_contents(*old(self)).len() + other@.len() <= 64 ==> r is Ok
                && block_buffer_contents(*final(self)) == block_buffer_contents(*old(self))
                + other@,
            block_buffer_contents(*old(self)).len() + other@.len() > 64 ==> r is Err
                && block_buffer_contents(*final(self)) == block_buffer_contents(*old(self)),
    {
        self.inner.extend_from_slice(other)
    }

    /// `heapless::Vec::clear`: removes every byte.
    #[verifier::external_body]
    pub(crate) fn clear(&mut self)
        ensures
            block_buffer_contents(*final(self)) == Seq::<u8>::empty(),
    {
        self.inner.clear()
    }

    /// A copy of the bytes held, through the slice `heapless::Vec` derefs to.
    #[verifier::external_body]
    pub(crate) fn to_vec(&self) -> (r: Vec<u8>)
        ensures
            r@ == block_buffer_contents(*self),
    {
        self.inner.to_vec()
    }
}

/// A run of whole 64-byte blocks to hand to the engine.
pub struct HashJob {
    /// The bytes of the blocks.
    pub bytes: Vec<u8>,
    /// Whether these are the first blocks of the message (the engine starts
    /// a new digest).
    pub init: bool,
}

/// The bytes of a sequence of jobs, one after the other.
pub open spec fn job_bytes(jobs: Seq<HashJob>) -> Seq<u8>
    decreases jobs.len(),
{
    if jobs.len() == 0 {
        Seq::empty()
    } else {
        job_bytes(jobs.drop_last()) + jobs.last().bytes@
    }
}

/// Whether a sequence of jobs is well formed: each a non-empty run of whole
/// blocks, and only the first one possibly starting the digest.
pub open spec fn jobs_well_formed(jobs: Seq<HashJob>, first_init: bool) -> bool {
    &&& forall|j: int|
        0 <= j < jobs.len() ==> #[trigger] jobs[j].bytes@.len() > 0 && jobs[j].bytes@.len()
            % 64 == 0
    &&& forall|j: int| 0 < j < jobs.len() ==> !(#[trigger] jobs[j]).init
    &&& jobs.len() > 0 ==> jobs[0].init == first_init
}

proof fn lemma_job_bytes_push(jobs: Seq<HashJob>, j: HashJob)
    ensures
        job_bytes(jobs.push(j)) == job_bytes(jobs) + j.bytes@,
{
    assert(jobs.push(j).drop_last() =~= jobs);
}

proof fn lemma_job_bytes_len(jobs: Seq<HashJob>)
    requires
        forall|j: int| 0 <= j < jobs.len() ==> (#[trigger] jobs[j]).bytes@.len() % 64 == 0,
    ensures
        job_bytes(jobs).len() % 64 == 0,
    decreases jobs.len(),
{
    if jobs.len() > 0 {
        let rest = jobs.drop_last();
        assert forall|j: int| 0 <= j < rest.len() implies (#[trigger] rest[j]).bytes@.len() % 64
            == 0 by {
            assert(rest[j] == jobs[j]);
        }
        lemma_job_bytes_len(rest);
        let a = job_bytes(rest).len() as int;
        let b = jobs.last().bytes@.len() as int;
        assert((a + b) % 64 == 0) by {
            vstd::arithmetic::div_mod::lemma_add_mod_noop(a, b, 64);
        }
    }
}

/// SHA-256 channel.
pub struct Sha256 {
    next_is_first_block: bool,
    buffer: BlockBuffer,
    count: usize,
}

impl Sha256 {
    /// The bytes of the partial block collected so far.
    pub closed spec fn buffered(self) -> Seq<u8> {
        block_buffer_contents(self.buffer)
    }

    /// Whether the next blocks handed to the engine start a new digest.
    pub closed spec fn at_first_block(self) -> bool {
        self.next_is_first_block
    }

    /// The number of bytes input so far.
    pub closed spec fn input_count(self) -> nat {
        self.count as nat
    }

    /// The partial block never holds a whole block.
    pub open spec fn wf(self) -> bool {
        self.buffered().len() < BLOCK_SIZE
    }

    /// Gets a handle to the SHA-256 channel; `None` if it is in use.
    pub fn take(claims: &mut ChannelClaims) -> (r: Option<Sha256>)
        ensures
            r is Some <==> !old(claims).sha,
            *final(claims) == (ChannelClaims { sha: true, ..*old(claims) }),
            r matches Some(h) ==> h.wf() && h.buffered() == Seq::<u8>::empty() && h.at_first_block()
                && h.input_count() == 0,
    {
        if claims.sha {
            None
        } else {
            claims.sha = true;
            Some(Sha256 { next_is_first_block: true, buffer: BlockBuffer::new(), count: 0 })
        }
    }

    /// The number of bytes input so far.
    pub fn count(&self) -> (r: usize)
        ensures
            r == self.input_count(),
    {
        self.count
    }

    /// Gives the channel back.
    pub fn release(self, claims: &mut ChannelClaims)
        ensures
            *final(claims) == (ChannelClaims { sha: false, ..*old(claims) }),
    {
        claims.sha = false;
    }

    /// Takes `input` into the digest: returns the runs of whole blocks to hand
    /// to the engine, in order, and keeps the trailing partial block.
    pub fn input_slice(&mut self, input: &[u8]) -> (jobs: Vec<HashJob>)
        requires
            old(self).wf(),
            old(self).input_count() + input@.len() <= MAX_COUNT,
        ensures
            final(self).wf(),
            job_bytes(jobs@) + final(self).buffered() == old(self).buffered() + input@,
            jobs_well_formed(jobs@, old(self).at_first_block()),
            jobs@.len() > 0 <==> old(self).buffered().len() + input@.len() >= BLOCK_SIZE,
            final(self).at_first_block() == (old(self).at_first_block() && jobs@.len() == 0),
            final(self).input_count() == old(self).input_count() + input@.len(),
            jobs@.len() <= 2,
            old(self).buffered().len() == 0 ==> jobs@.len() <= 1,
            old(self).buffered().len() > 0 && jobs@.len() > 0 ==> jobs@[0].bytes@ == old(
                self,
            ).buffered() + input@.subrange(0, BLOCK_SIZE - old(self).buffered().len()),
    {
        let mut jobs: Vec<HashJob> = Vec::new();
        if input.len() == 0 {
            assert(job_bytes(jobs@) =~= Seq::<u8>::empty());
            assert(old(self).buffered() + input@ =~= old(self).buffered());
            return jobs;
        }
        self.count = self.count + input.len();
        let buffered = self.buffer.len();
        if buffered == 0 {
            self.process_and_push(input, &mut jobs);
        } else if buffered + input.len() < BLOCK_SIZE {
            let _ = self.buffer.extend_from_slice(input);
            assert(job_bytes(jobs@) =~= Seq::<u8>::empty());
        } else {
            self.push_and_process(input, &mut jobs);
        }
        proof {
            lemma_job_bytes_len(jobs@);
        }
        jobs
    }

    // Hands the whole blocks at the start of `input` to the engine and keeps
    // the rest; the partial block must be empty.
    fn process_and_push(&mut self, input: &[u8], jobs: &mut Vec<HashJob>)
        requires
            old(self).buffered().len() == 0,
        ensures
            final(self).wf(),
            job_bytes(final(jobs)@) + final(self).buffered() == job_bytes(old(jobs)@) + input@,
            old(jobs)@.len() <= final(jobs)@.len() <= old(jobs)@.len() + 1,
            final(jobs)@.len() == old(jobs)@.len() + 1 <==> input@.len() >= BLOCK_SIZE,
            final(jobs)@.subrange(0, old(jobs)@.len() as int) == old(jobs)@,
            final(jobs)@.len() > old(jobs)@.len() ==> final(jobs)@[old(jobs)@.len() as int].init
                == old(self).at_first_block(),
            forall|j: int|
                old(jobs)@.len() <= j < final(jobs)@.len() ==> #[trigger] final(jobs)@[j].bytes@.len()
                    > 0 && final(jobs)@[j].bytes@.len() % 64 == 0,
            final(self).at_first_block() == (old(self).at_first_block() && final(jobs)@.len()
                == old(jobs)@.len()),
            final(self).count == old(self).count,
    {
        let ghost jobs0 = jobs@;
        let leftover = if input.len() >= BLOCK_SIZE {
            let whole = round_down(input.len(), BLOCK_SIZE);
            let (blocks, leftover) = input.split_at(whole);
            self.process_blocks(blocks, jobs);
            proof {
                lemma_job_bytes_push(jobs0, jobs@.last());
                assert(jobs@ =~= jobs0.push(jobs@.last()));
                assert(blocks@ + leftover@ =~= input@);
            }
            leftover
        } else {
            assert(jobs@ =~= jobs0);
            input
        };
        let _ = self.buffer.extend_from_slice(leftover);
        proof {
            assert(self.buffered() =~= leftover@);
            assert(jobs@.subrange(0, jobs0.len() as int) =~= jobs0);
        }
    }

    // Completes the partial block with the start of `input`, hands it to the
    // engine, then handles the rest of `input`.
    fn push_and_process(&mut self, input: &[u8], jobs: &mut Vec<HashJob>)
        requires
            old(self).wf(),
            old(self).buffered().len() > 0,
            old(self).buffered().len() + input@.len() >= BLOCK_SIZE,
            old(jobs)@.len() == 0,
        ensures
            final(self).wf(),
            job_bytes(final(jobs)@) + final(self).buffered() == old(self).buffered() + input@,
            jobs_well_formed(final(jobs)@, old(self).at_first_block()),
            final(jobs)@.len() > 0,
            final(jobs)@.len() <= 2,
            final(jobs)@[0].bytes@ == old(self).buffered() + input@.subrange(
                0,
                BLOCK_SIZE - old(self).buffered().len(),
            ),
            !final(self).at_first_block(),
            final(self).count == old(self).count,
    {
        let ghost buf0 = self.buffered();
        let ghost first = self.next_is_first_block;
        let (head, tail) = input.split_at(BLOCK_SIZE - self.buffer.len());
        let _ = self.buffer.extend_from_slice(head);
        let block = self.buffer.to_vec();
        self.process_blocks(block.as_slice(), jobs);
        self.buffer.clear();
        let ghost jobs1 = jobs@;
        proof {
            assert(jobs1.len() == 1);
            assert(jobs1.drop_last() =~= Seq::<HashJob>::empty());
            assert(job_bytes(jobs1.drop_last()) =~= Seq::<u8>::empty());
            assert(block@ =~= buf0 + head@);
            assert(job_bytes(jobs1) =~= buf0 + head@);
        }
        self.process_and_push(tail, jobs);
        proof {
            assert(head@ + tail@ =~= input@);
            assert(buf0 + head@ + tail@ =~= buf0 + input@);
            assert(jobs@[0] == jobs1[0]);
            assert(jobs@.subrange(0, 1) =~= jobs1);
            if jobs@.len() == 2 {
                assert(jobs@.drop_last() =~= jobs1);
            } else {
                assert(jobs@ =~= jobs1);
            }
        }
    }

    // Records a run of whole blocks for the engine.
    fn process_blocks(&mut self, blocks: &[u8], jobs: &mut Vec<HashJob>)
        requires
            blocks@.len() > 0,
            blocks@.len() % 64 == 0,
        ensures
            final(jobs)@ == old(jobs)@.push(final(jobs)@.last()),
            final(jobs)@.last().bytes@ == blocks@,
            final(jobs)@.last().init == old(self).at_first_block(),
            !final(self).at_first_block(),
            final(self).buffered() == old(self).buffered(),
            final(self).count == old(self).count,
    {
        let job = HashJob { bytes: vstd::slice::slice_to_vec(blocks), init: self.next_is_first_block };
        self.next_is_first_block = false;
        jobs.push(job);
    }

    /// Drops the partial block and the byte count and starts a new digest, as
    /// on a freshly taken handle.
    pub fn reset(&mut self)
        ensures
            final(self).wf(),
            final(self).buffered() == Seq::<u8>::empty(),
            final(self).at_first_block(),
            final(self).input_count() == 0,
    {
        self.buffer.clear();
        self.next_is_first_block = true;
        self.count = 0;
    }

    /// The last command of a digest: the partial block (possibly empty), and
    /// whether it also starts the digest.
    pub fn final_job(&self) -> (r: HashJob)
        ensures
            r.bytes@ == self.buffered(),
            r.init == self.at_first_block(),
    {
        HashJob { bytes: self.buffer.to_vec(), init: self.next_is_first_block }
    }
}

/// The control words of a command that hashes whole input blocks.
pub fn update_control(init: bool) -> (r: (Control0, Control1))
    ensures
        r.0.value() == 0x2u32 | 0x40u32 | (if init { 0x1000u32 } else { 0 }),
        r.1.value() == 2u32 << 16,
{
    let r = hash_control(init, false);
    proof {
        let v = r.0.value();
        let i = init;
        assert(v == 0x2u32 | 0x40u32 | (if i { 0x1000u32 } else { 0 })) by (bit_vector)
            requires v == 0x2u32 | 0x40u32 | (if i { 0x1000u32 } else { 0 }) | 0u32;
    }
    r
}

/// The control words of the command that hashes the last, possibly partial,
/// block and writes the digest to the payload.
pub fn final_control(init: bool) -> (r: (Control0, Control1))
    ensures
        r.0.value() == 0x2u32 | 0x40u32 | (if init { 0x1000u32 } else { 0 }) | 0x2000u32,
        r.1.value() == 2u32 << 16,
{
    hash_control(init, true)
}

fn hash_control(init: bool, term: bool) -> (r: (Control0, Control1))
    ensures
        r.0.value() == 0x2u32 | 0x40u32 | (if init { 0x1000u32 } else { 0 }) | (if term {
            0x2000u32
        } else {
            0
        }),
        r.1.value() == 2u32 << 16,
{
    let mut c0 = Control0::new();
    c0.decr_semaphore(true);
    c0.enable_hash(true);
    c0.hash_output(false);
    c0.hash_init(init);
    c0.hash_term(term);
    let mut c1 = Control1::new();
    c1.hash_select(HashSelect::Sha256);
    proof {
        let w1 = with_flag(with_flag(with_flag(0, 1, true), 6, true), 15, false);
        assert(w1 == 0x42u32) by (bit_vector)
            requires w1 == (((0u32 | (1u32 << 1u32)) | (1u32 << 6u32)) & !(1u32 << 15u32));
        let w2 = with_flag(w1, 12, init);
        let w3 = with_flag(w2, 13, term);
        let i = init;
        let t = term;
        assert(w3 == 0x2u32 | 0x40u32 | (if i { 0x1000u32 } else { 0 }) | (if t { 0x2000u32 } else { 0 }))
            by (bit_vector)
            requires
                w1 == 0x42u32,
                w2 == if i { w1 | (1u32 << 12u32) } else { w1 & !(1u32 << 12u32) },
                w3 == if t { w2 | (1u32 << 13u32) } else { w2 & !(1u32 << 13u32) },
        ;
        let w4 = w3;
        assert(!t ==> w4 == 0x2u32 | 0x40u32 | (if i { 0x1000u32 } else { 0 })) by (bit_vector)
            requires
                w4 == 0x2u32 | 0x40u32 | (if i { 0x1000u32 } else { 0 }) | (if t { 0x2000u32 } else { 0 }),
        ;
        let v = super::with_field(0, 0xf, 16, 2);
        assert(v == 2u32 << 16u32) by (bit_vector)
            requires v == (0u32 & !(0xfu32 << 16u32)) | (2u32 << 16u32);
    }
    (c0, c1)
}

/// The digest in the order SHA-256 defines: the engine writes it reversed.
pub fn digest_from_engine(output: [u8; 32]) -> (r: [u8; 32])
    ensures
        forall|i: int| 0 <= i < 32 ==> #[trigger] r@[i] == output@[31 - i],
{
    let mut r = [0u8; 32];
    let mut i: usize = 0;
    while i < 32
        invariant
            i <= 32,
            forall|k: int| 0 <= k < i ==> #[trigger] r@[k] == output@[31 - k],
        decreases 32 - i,
    {
        r[i] = output[31 - i];
        i = i + 1;
    }
    r
}

/// Feeding input in two pieces hands the engine the same bytes, in the same
/// order, followed by the same partial block, as feeding it at once: what
/// went to the engine followed by what is buffered is always everything input
/// since the digest started.
pub proof fn law_split_input(
    buffered0: Seq<u8>,
    jobs1: Seq<HashJob>,
    buffered1: Seq<u8>,
    jobs2: Seq<HashJob>,
    buffered2: Seq<u8>,
    a: Seq<u8>,
    b: Seq<u8>,
)
    requires
        job_bytes(jobs1) + buffered1 == buffered0 + a,
        job_bytes(jobs2) + buffered2 == buffered1 + b,
    ensures
        job_bytes(jobs1) + job_bytes(jobs2) + buffered2 == buffered0 + (a + b),
        buffered2.len() < 64 && buffered0.len() < 64 && (forall|j: int|
            0 <= j < jobs1.len() ==> (#[trigger] jobs1[j]).bytes@.len() % 64 == 0) && (forall|j: int|
            0 <= j < jobs2.len() ==> (#[trigger] jobs2[j]).bytes@.len() % 64 == 0)
            ==> buffered2.len() == (buffered0.len() + a.len() + b.len()) % 64,
{
    assert(job_bytes(jobs1) + job_bytes(jobs2) + buffered2 =~= job_bytes(jobs1) + (job_bytes(jobs2)
        + buffered2));
    assert(buffered0 + (a + b) =~= (buffered0 + a) + b);
    assert((job_bytes(jobs1) + buffered1) + b =~= job_bytes(jobs1) + (buffered1 + b));
    if buffered2.len() < 64 && buffered0.len() < 64 && (forall|j: int|
        0 <= j < jobs1.len() ==> (#[trigger] jobs1[j]).bytes@.len() % 64 == 0) && (forall|j: int|
        0 <= j < jobs2.len() ==> (#[trigger] jobs2[j]).bytes@.len() % 64 == 0) {
        lemma_job_bytes_len(jobs1);
        lemma_job_bytes_len(jobs2);
        let x = job_bytes(jobs1).len() as int;
        let y = job_bytes(jobs2).len() as int;
        let z = buffered2.len() as int;
        assert(x + y + z == buffered0.len() + a.len() + b.len());
        assert((x + y + z) % 64 == z) by {
            vstd::arithmetic::div_mod::lemma_mod_multiples_vanish(x / 64 + y / 64, z, 64);
            vstd::arithmetic::div_mod::lemma_small_mod(z as nat, 64);
            assert(x == 64 * (x / 64)) by {
                vstd::arithmetic::div_mod::lemma_fundamental_div_mod(x, 64);
            }
            assert(y == 64 * (y / 64)) by {
                vstd::arithmetic::div_mod::lemma_fundamental_div_mod(y, 64);
            }
            assert(64 * (x / 64 + y / 64) + z == x + y + z) by (nonlinear_arith)
                requires x == 64 * (x / 64), y == 64 * (y / 64);
        }
    }
}

} // verus!
