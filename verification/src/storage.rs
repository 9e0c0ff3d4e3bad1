//! Partition table and block device access.

use vstd::prelude::*;

verus! {

/// Block size used by the storage subsystem: SD and eMMC cards use 512-byte
/// blocks.
pub const BLOCK_SIZE: u16 = 512;

/// Offset of the partition table in the master boot record.
pub const PART_TABLE_OFFSET: usize = 446;

/// Size of a partition table entry.
pub const PART_ENTRY_SIZE: usize = 16;

/// The contents of a block device, block by block.
pub type DeviceContents = Seq<Seq<u8>>;

/// Trait for block devices that can read, write, and erase 512-byte blocks.
///
/// This is meant to be implemented for "managed" devices that have their own
/// controller for scheduling page erases and doing wear leveling, such as the
/// SD and MMC cards used by the Armory.
pub trait ManagedBlockDevice {
    /// The error type used by the block device implementation.
    type Error;

    /// The contents of the device, block by block, as a read would see them
    /// (buffered writes included).
    spec fn blocks(&self) -> DeviceContents;

    /// Returns the total number of 512-byte blocks on the device.
    fn total_blocks(&self) -> (r: u64)
        ensures
            r == self.blocks().len(),
    ;

    /// Reads a single block from the device.
    ///
    /// The `lba` parameter indicates the linear block address to read from.
    /// If it is outside of the valid range, an error must be returned.
    fn read(&self, block: &mut Block, lba: u64) -> (r: Result<(), Self::Error>)
        ensures
            lba >= self.blocks().len() ==> r is Err,
            r is Ok ==> final(block).bytes@ == self.blocks()[lba as int],
    ;

    /// Writes a single block to the device.
    ///
    /// The `lba` parameter indicates the linear block address to write to. If
    /// it is outside of the valid range, an error must be returned.
    ///
    /// This may write to a buffer and not to persistent storage. `flush` may
    /// be used to write all buffered data to persistent storage.
    fn write(&mut self, block: &Block, lba: u64) -> (r: Result<(), Self::Error>)
        ensures
            final(self).blocks().len() == old(self).blocks().len(),
            lba >= old(self).blocks().len() ==> r is Err,
            r is Ok ==> final(self).blocks() == old(self).blocks().update(lba as int, block.bytes@),
    ;

    /// Flushes all buffered writes to persistent storage.
    fn flush(&mut self) -> (r: Result<(), Self::Error>)
        ensures
            final(self).blocks() == old(self).blocks(),
    ;
}

impl<'a, D: ManagedBlockDevice> ManagedBlockDevice for &'a mut D {
    type Error = D::Error;

    open spec fn blocks(&self) -> Seq<Seq<u8>> {
        (**self).blocks()
    }

    fn total_blocks(&self) -> (r: u64) {
        (**self).total_blocks()
    }

    fn read(&self, block: &mut Block, lba: u64) -> (r: Result<(), Self::Error>) {
        (**self).read(block, lba)
    }

    fn write(&mut self, block: &Block, lba: u64) -> (r: Result<(), Self::Error>) {
        (**self).write(block, lba)
    }

    fn flush(&mut self) -> (r: Result<(), Self::Error>) {
        (**self).flush()
    }
}

/// A copy of an eMMC/SD card block.
#[derive(Clone)]
pub struct Block {
    /// The bytes contained in the memory block.
    pub bytes: [u8; 512],
}

impl Block {
    /// Creates a `Block` buffer and initializes it to all zeros.
    pub fn zeroed() -> (b: Block)
        ensures
            b.bytes@ == Seq::new(512, |i: int| 0u8),
    {
        let b = Block { bytes: [0u8; 512] };
        assert(b.bytes@ =~= Seq::new(512, |i: int| 0u8));
        b
    }
}

impl Default for Block {
    fn default() -> (b: Block)
        ensures
            b.bytes@ == Seq::new(512, |i: int| 0u8),
    {
        Block::zeroed()
    }
}

/// The little-endian 32-bit number stored at `off` in `bytes`.
pub open spec fn le_u32(bytes: Seq<u8>, off: int) -> u32 {
    (bytes[off] as int + 0x100 * bytes[off + 1] + 0x1_0000 * bytes[off + 2] + 0x100_0000 * bytes[
        off + 3
    ]) as u32
}

/// Reads the little-endian 32-bit number stored at `off` in `bytes`.
pub fn read_le_u32(bytes: &[u8], off: usize) -> (r: u32)
    requires
        off + 4 <= bytes@.len(),
    ensures
        r == le_u32(bytes@, off as int),
{
    let b0 = bytes[off];
    let b1 = bytes[off + 1];
    let b2 = bytes[off + 2];
    let b3 = bytes[off + 3];
    let r = (b0 as u32) | ((b1 as u32) << 8u32) | ((b2 as u32) << 16u32) | ((b3 as u32) << 24u32);
    assert(r == (b0 as int + 0x100 * b1 + 0x1_0000 * b2 + 0x100_0000 * b3) as u32) by (bit_vector)
        requires
            r == (b0 as u32) | ((b1 as u32) << 8u32) | ((b2 as u32) << 16u32) | ((b3 as u32)
                << 24u32),
    ;
    r
}

/// An entry of the MBR partition table.
#[derive(Clone, Copy)]
pub struct PartitionEntry {
    pub status: u8,
    pub start_chs: [u8; 3],
    pub part_type: u8,
    pub end_chs: [u8; 3],
    pub start_lba: u32,
    pub num_sectors: u32,
}

/// The contiguous range of blocks that a partition occupies.
#[derive(Clone, Copy)]
pub struct PartExtent {
    pub start: u32,
    pub sectors: u32,
}

/// The partition table entry stored at `off` of an MBR image.
pub open spec fn entry_at(bytes: Seq<u8>, off: int) -> PartitionEntry {
    PartitionEntry {
        status: bytes[off],
        start_chs: [bytes[off + 1], bytes[off + 2], bytes[off + 3]],
        part_type: bytes[off + 4],
        end_chs: [bytes[off + 5], bytes[off + 6], bytes[off + 7]],
        start_lba: le_u32(bytes, off + 8),
        num_sectors: le_u32(bytes, off + 12),
    }
}

/// The `i`-th entry of the partition table of an MBR image.
pub open spec fn table_entry(bytes: Seq<u8>, i: int) -> PartitionEntry {
    entry_at(bytes, PART_TABLE_OFFSET + PART_ENTRY_SIZE * i)
}

/// Whether an MBR image ends with the boot signature `0x55 0xAA`.
pub open spec fn has_mbr_signature(bytes: Seq<u8>) -> bool {
    bytes[510] == 0x55 && bytes[511] == 0xAA
}

/// Whether a partition table entry is acceptable on a device of
/// `total_blocks` blocks: unallocated (type 0), or starting after block 0 and
/// ending (exclusively) before the last block, below the 32-bit limit.
pub open spec fn entry_valid(e: PartitionEntry, total_blocks: u64) -> bool {
    let start = e.start_lba as int;
    let end = e.start_lba as int + e.num_sectors as int;
    e.part_type != 0 ==> {
        &&& start != 0
        &&& start < total_blocks
        &&& end != 0
        &&& end < total_blocks
        &&& end <= u32::MAX
    }
}

impl PartitionEntry {
    /// Returns a zeroed, unallocated partition table entry.
    pub fn zeroed() -> (e: PartitionEntry)
        ensures
            e.status == 0,
            e.start_chs@ == seq![0u8, 0, 0],
            e.part_type == 0,
            e.end_chs@ == seq![0u8, 0, 0],
            e.start_lba == 0,
            e.num_sectors == 0,
    {
        let e = PartitionEntry {
            status: 0,
            start_chs: [0, 0, 0],
            part_type: 0,
            end_chs: [0, 0, 0],
            start_lba: 0,
            num_sectors: 0,
        };
        assert(e.start_chs@ =~= seq![0u8, 0, 0]);
        assert(e.end_chs@ =~= seq![0u8, 0, 0]);
        e
    }

    /// The blocks that the partition occupies.
    pub fn extent(&self) -> (x: PartExtent)
        ensures
            x.start == self.start_lba,
            x.sectors == self.num_sectors,
    {
        PartExtent { start: self.start_lba, sectors: self.num_sectors }
    }

    /// Decodes the partition table entry stored at `off` of `bytes`.
    pub fn parse(bytes: &[u8], off: usize) -> (e: PartitionEntry)
        requires
            off + PART_ENTRY_SIZE <= bytes@.len(),
        ensures
            e == entry_at(bytes@, off as int),
    {
        let e = PartitionEntry {
            status: bytes[off],
            start_chs: [bytes[off + 1], bytes[off + 2], bytes[off + 3]],
            part_type: bytes[off + 4],
            end_chs: [bytes[off + 5], bytes[off + 6], bytes[off + 7]],
            start_lba: read_le_u32(bytes, off + 8),
            num_sectors: read_le_u32(bytes, off + 12),
        };
        assert(e.start_chs@ =~= entry_at(bytes@, off as int).start_chs@);
        assert(e.end_chs@ =~= entry_at(bytes@, off as int).end_chs@);
        e
    }

    /// Checks the entry against a device of `total_blocks` blocks.
    pub fn is_valid(&self, total_blocks: u64) -> (r: bool)
        ensures
            r == entry_valid(*self, total_blocks),
    {
        if self.part_type != 0x00 {
            let start = self.start_lba;
            let end = self.start_lba as u64 + self.num_sectors as u64;
            if start == 0 || start as u64 >= total_blocks {
                return false;
            }
            if end == 0 || end >= total_blocks {
                return false;
            }
            if end > u32::MAX as u64 {
                return false;
            }
        }
        true
    }
}

/// Errors that can occur while opening or accessing an MBR-formatted block
/// device.
pub enum MbrError<D> {
    /// Error while accessing the underlying device.
    Device(D),
    /// The MBR had an invalid signature (did not end with `0x55 0xAA`).
    InvalidMagic,
    /// Encountered partition with invalid location/extent.
    InvalidPartExtent,
    /// Attempted to access partition that isn't allocated.
    NoPartition,
    /// Attempted to access block outside of device/partition.
    OutOfRangeAccess,
}

/// The partition table that an MBR image and a device size give: refused when
/// the signature is missing or when an allocated entry lies outside the
/// device.
pub open spec fn mbr_table<E>(bytes: Seq<u8>, total_blocks: u64) -> Result<
    Seq<PartitionEntry>,
    MbrError<E>,
> {
    if !has_mbr_signature(bytes) {
        Err(MbrError::InvalidMagic)
    } else if exists|i: int| 0 <= i < 4 && !entry_valid(#[trigger] table_entry(bytes, i), total_blocks) {
        Err(MbrError::InvalidPartExtent)
    } else {
        Ok(Seq::new(4, |i: int| table_entry(bytes, i)))
    }
}

/// Checks the signature of an MBR image and decodes and checks its partition
/// table.
pub fn parse_partition_table<E>(bytes: &[u8; 512], total_blocks: u64) -> (r: Result<
    [PartitionEntry; 4],
    MbrError<E>,
>)
    ensures
        match (r, mbr_table::<E>(bytes@, total_blocks)) {
            (Ok(t), Ok(s)) => t@ == s,
            (Err(MbrError::InvalidMagic), Err(MbrError::InvalidMagic)) => true,
            (Err(MbrError::InvalidPartExtent), Err(MbrError::InvalidPartExtent)) => true,
            _ => false,
        },
{
    if bytes[510] != 0x55 || bytes[511] != 0xAA {
        return Err(MbrError::InvalidMagic);
    }
    let b: &[u8] = bytes.as_slice();
    let mut table = [PartitionEntry::zeroed(); 4];
    let mut i: usize = 0;
    while i < 4
        invariant
            i <= 4,
            b@ == bytes@,
            b@.len() == 512,
            has_mbr_signature(bytes@),
            forall|j: int| 0 <= j < i ==> table@[j] == table_entry(bytes@, j),
            forall|j: int| 0 <= j < i ==> entry_valid(#[trigger] table_entry(bytes@, j), total_blocks),
        decreases 4 - i,
    {
        let e = PartitionEntry::parse(b, PART_TABLE_OFFSET + PART_ENTRY_SIZE * i);
        if !e.is_valid(total_blocks) {
            assert(!entry_valid(table_entry(bytes@, i as int), total_blocks));
            return Err(MbrError::InvalidPartExtent);
        }
        table[i] = e;
        i = i + 1;
    }
    assert(table@ =~= Seq::new(4, |i: int| table_entry(bytes@, i)));
    Ok(table)
}

/// Wraps an MBR-partitioned `ManagedBlockDevice` and provides access to the
/// primary partitions.
pub struct MbrDevice<D: ManagedBlockDevice> {
    raw: D,
    part_table: [PartitionEntry; 4],
}

impl<D: ManagedBlockDevice> MbrDevice<D> {
    /// The partition table.
    pub closed spec fn table(&self) -> Seq<PartitionEntry> {
        self.part_table@
    }

    /// The partitioned device.
    pub closed spec fn device(&self) -> D {
        self.raw
    }

    /// Opens an MBR-partitioned block device `raw` and parses the partition
    /// table stored in its first block.
    ///
    /// A `Device` error means that reading the first block failed; otherwise
    /// the outcome is the partition table of that block on a device of
    /// `raw`'s size.
    pub fn open(raw: D) -> (r: Result<Self, MbrError<D::Error>>)
        ensures
            raw.blocks().len() == 0 ==> r matches Err(MbrError::Device(_)),
            !(r matches Err(MbrError::Device(_))) ==> match (
                r,
                mbr_table::<D::Error>(raw.blocks()[0], raw.blocks().len() as u64),
            ) {
                (Ok(dev), Ok(t)) => dev.device() == raw && dev.table() == t,
                (Err(MbrError::InvalidMagic), Err(MbrError::InvalidMagic)) => true,
                (Err(MbrError::InvalidPartExtent), Err(MbrError::InvalidPartExtent)) => true,
                _ => false,
            },
    {
        let mut mbr = Block::zeroed();
        match raw.read(&mut mbr, 0) {
            Ok(()) => {},
            Err(e) => return Err(MbrError::Device(e)),
        }
        let total = raw.total_blocks();
        match parse_partition_table::<D::Error>(&mbr.bytes, total) {
            Ok(part_table) => Ok(MbrDevice { raw, part_table }),
            Err(MbrError::InvalidMagic) => Err(MbrError::InvalidMagic),
            Err(_) => Err(MbrError::InvalidPartExtent),
        }
    }
}

impl<D: ManagedBlockDevice> MbrDevice<D> {
    /// Obtains access to the partition at index `part` (0 ..= 3).
    ///
    /// Returns a `NoPartition` error if `part` does not refer to an allocated
    /// partition.
    pub fn partition(&mut self, part: u8) -> (r: Result<MbrPartitionRef<'_, D>, MbrError<D::Error>>)
        ensures
            final(self).table() == old(self).table(),
            match r {
                Ok(p) => part < 4 && old(self).table()[part as int].part_type != 0
                    && p.start() == old(self).table()[part as int].start_lba
                    && p.sectors() == old(self).table()[part as int].num_sectors
                    && p.device() == old(self).device(),
                Err(MbrError::NoPartition) => part >= 4 || old(self).table()[part as int].part_type
                    == 0,
                Err(_) => false,
            },
    {
        let extent = match self.part_extent(part) {
            Ok(x) => x,
            Err(e) => return Err(e),
        };
        Ok(MbrPartitionRef { raw: &mut self.raw, extent })
    }

    fn part_extent(&self, part: u8) -> (r: Result<PartExtent, MbrError<D::Error>>)
        ensures
            match r {
                Ok(x) => part < 4 && self.table()[part as int].part_type != 0 && x.start
                    == self.table()[part as int].start_lba && x.sectors == self.table()[part as int].num_sectors,
                Err(MbrError::NoPartition) => part >= 4 || self.table()[part as int].part_type == 0,
                Err(_) => false,
            },
    {
        if part >= 4 {
            return Err(MbrError::NoPartition);
        }
        let entry = &self.part_table[part as usize];
        if entry.part_type == 0x00 {
            return Err(MbrError::NoPartition);
        }
        Ok(entry.extent())
    }
}

/// Provides borrowed access to an MBR partition, mapping every access into
/// the blocks of the partition.
pub struct MbrPartitionRef<'a, D: ManagedBlockDevice> {
    raw: &'a mut D,
    extent: PartExtent,
}

impl<'a, D: ManagedBlockDevice> MbrPartitionRef<'a, D> {
    /// The first block of the partition on the device.
    pub closed spec fn start(&self) -> u32 {
        self.extent.start
    }

    /// The number of blocks of the partition.
    pub closed spec fn sectors(&self) -> u32 {
        self.extent.sectors
    }

    /// The partitioned device.
    pub closed spec fn device(&self) -> D {
        *self.raw
    }
}

/// The window of `sectors` device blocks starting at `start`; blocks beyond
/// the end of the device read as empty.
pub open spec fn window(blocks: Seq<Seq<u8>>, start: int, sectors: int) -> Seq<Seq<u8>> {
    Seq::new(
        sectors as nat,
        |i: int|
            if start + i < blocks.len() {
                blocks[start + i]
            } else {
                Seq::empty()
            },
    )
}

impl<'a, D: ManagedBlockDevice> ManagedBlockDevice for MbrPartitionRef<'a, D> {
    type Error = MbrError<D::Error>;

    open spec fn blocks(&self) -> Seq<Seq<u8>> {
        window(self.device().blocks(), self.start() as int, self.sectors() as int)
    }

    fn total_blocks(&self) -> (r: u64)
        ensures
            r == self.sectors(),
    {
        self.extent.sectors as u64
    }

    fn read(&self, block: &mut Block, lba: u64) -> (r: Result<(), Self::Error>)
        ensures
            lba >= self.sectors() ==> (r matches Err(MbrError::OutOfRangeAccess)),
            lba >= self.sectors() ==> *final(block) == *old(block),
            lba < self.sectors() ==> r is Ok || r matches Err(MbrError::Device(_)),
            r is Ok ==> final(block).bytes@ == self.device().blocks()[self.start() + lba],
    {
        if lba >= self.extent.sectors as u64 {
            return Err(MbrError::OutOfRangeAccess);
        }
        match self.raw.read(block, lba + self.extent.start as u64) {
            Ok(()) => Ok(()),
            Err(e) => Err(MbrError::Device(e)),
        }
    }

    fn write(&mut self, block: &Block, lba: u64) -> (r: Result<(), Self::Error>)
        ensures
            lba >= old(self).sectors() ==> r matches Err(MbrError::OutOfRangeAccess),
            lba < old(self).sectors() ==> r is Ok || r matches Err(MbrError::Device(_)),
            final(self).sectors() == old(self).sectors(),
            final(self).start() == old(self).start(),
            final(self).device().blocks().len() == old(self).device().blocks().len(),
            lba >= old(self).sectors() ==> final(self).device() == old(self).device(),
            r is Ok ==> final(self).device().blocks() == old(self).device().blocks().update(
                old(self).start() + lba,
                block.bytes@,
            ),
    {
        if lba >= self.extent.sectors as u64 {
            return Err(MbrError::OutOfRangeAccess);
        }
        let target = lba + self.extent.start as u64;
        let r = match self.raw.write(block, target) {
            Ok(()) => Ok(()),
            Err(e) => Err(MbrError::Device(e)),
        };
        proof {
            let b0 = old(self).device().blocks();
            let b1 = self.device().blocks();
            let st = self.start() as int;
            let n = self.sectors() as int;
            if r is Ok {
                assert(st + lba < b0.len());
                assert(b1 == b0.update(st + lba, block.bytes@));
                let w0 = window(b0, st, n);
                let w1 = window(b1, st, n);
                assert(lba < n);
                assert forall|i: int| 0 <= i < n implies #[trigger] w1[i] == w0.update(
                    lba as int,
                    block.bytes@,
                )[i] by {
                    if i != lba && st + i < b0.len() {
                        assert(b1[st + i] == b0[st + i]);
                    }
                }
                assert(w1 =~= w0.update(lba as int, block.bytes@));
            }
        }
        r
    }

    fn flush(&mut self) -> (r: Result<(), Self::Error>)
        ensures
            r is Ok || r matches Err(MbrError::Device(_)),
            final(self).sectors() == old(self).sectors(),
            final(self).start() == old(self).start(),
            final(self).device().blocks() == old(self).device().blocks(),
    {
        match self.raw.flush() {
            Ok(()) => Ok(()),
            Err(e) => Err(MbrError::Device(e)),
        }
    }
}

/// An MBR is accepted whenever it carries the signature and each allocated
/// entry lies inside the device after block 0: it starts above block 0 and
/// ends before the last block, below the 32-bit limit. Neither the status
/// (boot) byte nor the CHS fields matter, and the table handed back is the
/// four entries as stored.
pub proof fn law_partitions_accepted<E>(bytes: Seq<u8>, total_blocks: u64)
    requires
        bytes[510] == 0x55,
        bytes[511] == 0xAA,
        forall|i: int|
            0 <= i < 4 && (#[trigger] table_entry(bytes, i)).part_type != 0 ==> {
                &&& table_entry(bytes, i).start_lba > 0
                &&& table_entry(bytes, i).start_lba + table_entry(bytes, i).num_sectors
                    < total_blocks
                &&& table_entry(bytes, i).start_lba + table_entry(bytes, i).num_sectors
                    <= 0xffff_ffff
            },
    ensures
        mbr_table::<E>(bytes, total_blocks) == Ok::<Seq<PartitionEntry>, MbrError<E>>(
            Seq::new(4, |i: int| table_entry(bytes, i)),
        ),
{
    assert forall|i: int| 0 <= i < 4 implies entry_valid(#[trigger] table_entry(bytes, i), total_blocks) by {
        let e = table_entry(bytes, i);
        if e.part_type != 0 {
            assert(e.start_lba > 0);
        }
    }
}

/// A write through a partition stays inside it: writing partition block
/// `lba` changes device block `start + lba` only, so the partition reads the
/// block back and every device block outside the partition is unchanged.
pub proof fn law_partition_write_stays_inside(
    blocks: Seq<Seq<u8>>,
    start: int,
    sectors: int,
    lba: int,
    bytes: Seq<u8>,
)
    requires
        0 <= start,
        0 <= lba < sectors,
        start + lba < blocks.len(),
    ensures
        window(blocks.update(start + lba, bytes), start, sectors)[lba] == bytes,
        forall|j: int|
            0 <= j < blocks.len() && !(start <= j < start + sectors) ==> #[trigger] blocks.update(
                start + lba,
                bytes,
            )[j] == blocks[j],
        forall|i: int|
            0 <= i < sectors && i != lba ==> #[trigger] window(
                blocks.update(start + lba, bytes),
                start,
                sectors,
            )[i] == window(blocks, start, sectors)[i],
{
}

/// Every allocated partition of an accepted MBR lies strictly inside the
/// device and after the MBR block: it starts at a block above 0 and ends
/// before the last block of the device.
pub proof fn law_partitions_within_device<E>(bytes: Seq<u8>, total_blocks: u64, i: int)
    requires
        mbr_table::<E>(bytes, total_blocks) is Ok,
        0 <= i < 4,
        table_entry(bytes, i).part_type != 0,
    ensures
        ({
            let e = mbr_table::<E>(bytes, total_blocks)->Ok_0[i];
            &&& 0 < e.start_lba
            &&& e.start_lba + e.num_sectors < total_blocks
            &&& e.start_lba + e.num_sectors <= u32::MAX
        }),
{
    assert(entry_valid(table_entry(bytes, i), total_blocks));
}

} // verus!
