//! File system support: the block storage that littlefs runs on, and the
//! checks made before mounting.

use crate::storage::{Block, ManagedBlockDevice, BLOCK_SIZE};
use vstd::prelude::*;

verus! {

/// Hardcoded file system block count: 64 MiB in 512-byte blocks. The MBR
/// partition must be bigger than this.
pub const BLOCK_COUNT: usize = 131_072;

/// Largest file that littlefs is configured for.
pub const FILEBYTES_MAX: usize = 2_147_483_647;

/// Why a storage or file system operation failed.
#[derive(Clone, Copy, PartialEq, Eq, Structural)]
pub enum FsError {
    /// The block device reported an error.
    Io,
    /// The device is too small for the file system.
    NoSpace,
    /// No room is left for another open file.
    NoMemory,
}

/// Checks that a block device of `total_blocks` blocks can hold the file
/// system.
pub fn check_mount_size(total_blocks: u64) -> (r: Result<(), FsError>)
    ensures
        r == if total_blocks < BLOCK_COUNT { Err(FsError::NoSpace) } else { Ok::<(), FsError>(()) },
{
    if total_blocks < BLOCK_COUNT as u64 {
        Err(FsError::NoSpace)
    } else {
        Ok(())
    }
}

/// The bytes of the `n` device blocks starting at block `first`, one after
/// the other.
pub open spec fn blocks_bytes(blocks: Seq<Seq<u8>>, first: int, n: int) -> Seq<u8> {
    Seq::new((n * 512) as nat, |k: int| blocks[first + k / 512][k % 512])
}

/// The device contents after the first `count` blocks of `data` were written
/// from block `first` on.
pub open spec fn written_blocks(blocks: Seq<Seq<u8>>, first: int, data: Seq<u8>, count: int) -> Seq<
    Seq<u8>,
> {
    Seq::new(
        blocks.len(),
        |j: int|
            if first <= j < first + count {
                data.subrange((j - first) * 512, (j - first) * 512 + 512)
            } else {
                blocks[j]
            },
    )
}

proof fn lemma_block_offset(i: int, k: int)
    requires
        0 <= k < 512,
    ensures
        (i * 512 + k) / 512 == i,
        (i * 512 + k) % 512 == k,
{
    vstd::arithmetic::div_mod::lemma_fundamental_div_mod_converse(i * 512 + k, 512, i, k);
}

/// Backing storage used by littlefs: byte offsets mapped to whole blocks of
/// a managed block device.
pub struct LfsStorage<D: ManagedBlockDevice> {
    inner: D,
}

impl<D: ManagedBlockDevice> LfsStorage<D> {
    /// The block device.
    pub closed spec fn device(&self) -> D {
        self.inner
    }

    /// Storage on `inner`.
    pub fn new(inner: D) -> (s: Self)
        ensures
            s.device() == inner,
    {
        LfsStorage { inner }
    }

    /// Gives the block device back.
    pub fn into_inner(self) -> (d: D)
        ensures
            d == self.device(),
    {
        self.inner
    }

    /// Reads whole blocks starting at byte offset `off` into `buf`.
    ///
    /// Returns the number of bytes read, or `Io` when the device fails, which
    /// it does when the blocks run past its end.
    pub fn read(&self, off: usize, buf: &mut [u8]) -> (r: Result<usize, FsError>)
        requires
            old(buf)@.len() % 512 == 0,
            off / 512 + old(buf)@.len() / 512 <= u64::MAX,
        ensures
            final(buf)@.len() == old(buf)@.len(),
            r is Ok ==> r == Ok::<usize, FsError>(old(buf)@.len() as usize) && final(buf)@
                == blocks_bytes(
                self.device().blocks(),
                off as int / 512,
                old(buf)@.len() as int / 512,
            ),
            r is Err ==> r == Err::<usize, FsError>(FsError::Io),
            old(buf)@.len() == 0 ==> r == Ok::<usize, FsError>(0),
            old(buf)@.len() > 0 && off / 512 + old(buf)@.len() / 512 > self.device().blocks().len()
                ==> r is Err,
    {
        let ghost dev = self.inner.blocks();
        let ghost first = off as int / 512;
        let mut lba: usize = off / (BLOCK_SIZE as usize);
        let mut block = Block::zeroed();
        let len = buf.len();
        let n = len / (BLOCK_SIZE as usize);
        let mut i: usize = 0;
        while i < n
            invariant
                i <= n,
                buf@.len() == len,
                n == old(buf)@.len() / 512,
                buf@.len() == old(buf)@.len(),
                buf@.len() % 512 == 0,
                lba == first + i,
                first == off / 512,
                off / 512 + n <= u64::MAX,
                dev == self.inner.blocks(),
                i > 0 ==> first + i <= dev.len(),
                forall|k: int|
                    0 <= k < i * 512 ==> #[trigger] buf@[k] == dev[first + k / 512][k % 512],
            decreases n - i,
        {
            match self.inner.read(&mut block, lba as u64) {
                Ok(()) => {},
                Err(_) => return Err(FsError::Io),
            }
            assert(i * 512 + 512 <= buf@.len()) by (nonlinear_arith)
                requires i < n, n == buf@.len() / 512, buf@.len() % 512 == 0;
            let base = i * 512;
            let ghost before = buf@;
            let mut k: usize = 0;
            while k < 512
                invariant
                    k <= 512,
                    base == i * 512,
                    base + 512 <= buf@.len(),
                    buf@.len() == old(buf)@.len(),
                    buf@.len() == len,
                    block.bytes@ == dev[lba as int],
                    forall|j: int| 0 <= j < base ==> #[trigger] buf@[j] == before[j],
                    forall|j: int| base <= j < base + k ==> #[trigger] buf@[j] == block.bytes@[j - base],
                decreases 512 - k,
            {
                buf[base + k] = block.bytes[k];
                k = k + 1;
            }
            proof {
                assert forall|j: int| 0 <= j < (i + 1) * 512 implies #[trigger] buf@[j] == dev[first
                    + j / 512][j % 512] by {
                    if j >= base {
                        lemma_block_offset(i as int, j - base);
                    }
                }
            }
            lba = lba + 1;
            i = i + 1;
        }
        proof {
            assert(len == n * 512) by (nonlinear_arith)
                requires n == len / 512, len % 512 == 0;
            assert(buf@ =~= blocks_bytes(dev, first, n as int));
        }
        Ok(buf.len())
    }

    /// Writes the whole blocks of `data` starting at byte offset `off`, then
    /// flushes the device.
    ///
    /// Returns the number of bytes written, or `Io` when the device fails,
    /// which it does when the blocks run past its end.
    pub fn write(&mut self, off: usize, data: &[u8]) -> (r: Result<usize, FsError>)
        requires
            data@.len() % 512 == 0,
            off / 512 + data@.len() / 512 <= u64::MAX,
        ensures
            final(self).device().blocks().len() == old(self).device().blocks().len(),
            r is Ok ==> r == Ok::<usize, FsError>(data@.len() as usize) && final(self).device().blocks()
                == written_blocks(
                old(self).device().blocks(),
                off as int / 512,
                data@,
                data@.len() as int / 512,
            ),
            r is Err ==> r == Err::<usize, FsError>(FsError::Io),
            data@.len() > 0 && off / 512 + data@.len() / 512 > old(self).device().blocks().len()
                ==> r is Err,
    {
        let ghost dev0 = self.inner.blocks();
        let ghost first = off as int / 512;
        let mut lba: usize = off / (BLOCK_SIZE as usize);
        let mut block = Block::zeroed();
        let len = data.len();
        let n = len / (BLOCK_SIZE as usize);
        let mut i: usize = 0;
        while i < n
            invariant
                i <= n,
                data@.len() == len,
                n == data@.len() / 512,
                data@.len() % 512 == 0,
                lba == first + i,
                first == off / 512,
                off / 512 + n <= u64::MAX,
                i > 0 ==> first + i <= dev0.len(),
                dev0 == old(self).inner.blocks(),
                self.inner.blocks() == written_blocks(dev0, first, data@, i as int),
            decreases n - i,
        {
            assert(i * 512 + 512 <= data@.len()) by (nonlinear_arith)
                requires i < n, n == data@.len() / 512, data@.len() % 512 == 0;
            let base = i * 512;
            let mut k: usize = 0;
            while k < 512
                invariant
                    k <= 512,
                    base == i * 512,
                    base + 512 <= data@.len(),
                    data@.len() == len,
                    block.bytes@.len() == 512,
                    forall|j: int| 0 <= j < k ==> #[trigger] block.bytes@[j] == data@[base + j],
                decreases 512 - k,
            {
                block.bytes[k] = data[base + k];
                k = k + 1;
            }
            assert(block.bytes@ =~= data@.subrange(base as int, base + 512));
            let ghost cur = self.inner.blocks();
            match self.inner.write(&block, lba as u64) {
                Ok(()) => {},
                Err(_) => return Err(FsError::Io),
            }
            proof {
                assert(self.inner.blocks() =~= written_blocks(dev0, first, data@, i + 1));
            }
            lba = lba + 1;
            i = i + 1;
        }
        match self.inner.flush() {
            Ok(()) => {},
            Err(_) => return Err(FsError::Io),
        }
        Ok(data.len())
    }

    /// Erases `len` bytes at `off`: a managed device overwrites blocks in
    /// place, so nothing needs erasing.
    pub fn erase(&mut self, off: usize, len: usize) -> (r: Result<usize, FsError>)
        ensures
            r == Ok::<usize, FsError>(len),
    {
        Ok(len)
    }
}

/// What a read gives back of a write: once `data` was written from block
/// `first` on, reading the same blocks yields `data`, byte for byte.
pub proof fn law_storage_read_back(blocks: Seq<Seq<u8>>, first: int, data: Seq<u8>)
    requires
        data.len() % 512 == 0,
        0 <= first,
        first + data.len() / 512 <= blocks.len(),
    ensures
        blocks_bytes(
            written_blocks(blocks, first, data, data.len() as int / 512),
            first,
            data.len() as int / 512,
        ) == data,
{
    let n = data.len() as int / 512;
    let w = written_blocks(blocks, first, data, n);
    let r = blocks_bytes(w, first, n);
    assert(n * 512 == data.len()) by (nonlinear_arith)
        requires n == data.len() / 512, data.len() % 512 == 0;
    assert forall|k: int| 0 <= k < data.len() implies #[trigger] r[k] == data[k] by {
        let q = k / 512;
        let m = k % 512;
        vstd::arithmetic::div_mod::lemma_fundamental_div_mod(k, 512);
        assert(0 <= q < n) by (nonlinear_arith)
            requires q == k / 512, 0 <= k < n * 512;
        assert(w[first + q] == data.subrange(q * 512, q * 512 + 512));
    }
    assert(r =~= data);
}

/// A fixed-capacity arena of open files: allocations succeed until it is
/// full, and never move what was allocated before.
pub struct Arena<T> {
    items: Vec<T>,
    capacity: usize,
}

impl<T> Arena<T> {
    /// The values allocated so far, in allocation order.
    pub closed spec fn contents(&self) -> Seq<T> {
        self.items@
    }

    /// The number of values the arena can hold.
    pub closed spec fn limit(&self) -> nat {
        self.capacity as nat
    }

    /// An empty arena with room for `capacity` values.
    pub fn new(capacity: usize) -> (a: Arena<T>)
        ensures
            a.contents() == Seq::<T>::empty(),
            a.limit() == capacity,
    {
        Arena { items: Vec::new(), capacity }
    }

    /// Stores `value` and returns its position, or `NoMemory` (giving the
    /// value back) when the arena is full.
    pub fn allocate(&mut self, value: T) -> (r: Result<usize, (FsError, T)>)
        ensures
            final(self).limit() == old(self).limit(),
            old(self).contents().len() < old(self).limit() ==> r == Ok::<usize, (FsError, T)>(
                old(self).contents().len() as usize,
            ) && final(self).contents() == old(self).contents().push(value),
            old(self).contents().len() >= old(self).limit() ==> r == Err::<usize, (FsError, T)>(
                (FsError::NoMemory, value),
            ) && final(self).contents() == old(self).contents(),
    {
        let i = self.items.len();
        if i < self.capacity {
            self.items.push(value);
            Ok(i)
        } else {
            Err((FsError::NoMemory, value))
        }
    }

    /// The number of values allocated.
    pub fn len(&self) -> (r: usize)
        ensures
            r == self.contents().len(),
    {
        self.items.len()
    }

    /// Takes every value out, in allocation order.
    pub fn into_items(self) -> (r: Vec<T>)
        ensures
            r@ == self.contents(),
    {
        self.items
    }
}

} // verus!
