use usbarmory::fs::{check_mount_size, Arena, FsError, LfsStorage, BLOCK_COUNT};
use usbarmory::storage::{parse_partition_table, Block, DeviceContents, ManagedBlockDevice, MbrDevice, MbrError, PartitionEntry};

/// A block device held in memory.
struct RamDisk {
    blocks: Vec<[u8; 512]>,
    flushes: usize,
}

impl RamDisk {
    fn new(n: usize) -> RamDisk {
        RamDisk { blocks: vec![[0u8; 512]; n], flushes: 0 }
    }
}

impl ManagedBlockDevice for RamDisk {
    type Error = &'static str;

    // the contents model exists for the verifier only and is never called
    fn blocks(&self) -> DeviceContents {
        unreachable!()
    }

    fn total_blocks(&self) -> u64 {
        self.blocks.len() as u64
    }

    fn read(&self, block: &mut Block, lba: u64) -> Result<(), Self::Error> {
        match self.blocks.get(lba as usize) {
            Some(b) => {
                block.bytes = *b;
                Ok(())
            }
            None => Err("out of range"),
        }
    }

    fn write(&mut self, block: &Block, lba: u64) -> Result<(), Self::Error> {
        match self.blocks.get_mut(lba as usize) {
            Some(b) => {
                *b = block.bytes;
                Ok(())
            }
            None => Err("out of range"),
        }
    }

    fn flush(&mut self) -> Result<(), Self::Error> {
        self.flushes += 1;
        Ok(())
    }
}

fn put_entry(mbr: &mut [u8; 512], i: usize, part_type: u8, start: u32, sectors: u32) {
    let off = 446 + 16 * i;
    mbr[off] = 0x80;
    mbr[off + 4] = part_type;
    mbr[off + 8..off + 12].copy_from_slice(&start.to_le_bytes());
    mbr[off + 12..off + 16].copy_from_slice(&sectors.to_le_bytes());
}

fn mbr_with(entries: &[(usize, u8, u32, u32)]) -> [u8; 512] {
    let mut mbr = [0u8; 512];
    mbr[510] = 0x55;
    mbr[511] = 0xAA;
    for &(i, t, s, n) in entries {
        put_entry(&mut mbr, i, t, s, n);
    }
    mbr
}

#[test]
fn block_zeroed_is_zero() {
    let b = Block::zeroed();
    assert!(b.bytes.iter().all(|&x| x == 0));
    let d = Block::default();
    assert!(d.bytes.iter().all(|&x| x == 0));
}

#[test]
fn mbr_without_signature_is_refused() {
    let mut mbr = mbr_with(&[(0, 0x83, 1, 10)]);
    mbr[511] = 0;
    assert!(matches!(parse_partition_table::<()>(&mbr, 100), Err(MbrError::InvalidMagic)));
}

#[test]
fn mbr_table_decoded() {
    let mbr = mbr_with(&[(0, 0x83, 2048, 1000), (2, 0x0c, 4000, 10)]);
    let table = match parse_partition_table::<()>(&mbr, 10_000) {
        Ok(t) => t,
        Err(_) => panic!("table refused"),
    };
    assert_eq!(table[0].part_type, 0x83);
    assert_eq!(table[0].status, 0x80);
    assert_eq!(table[0].start_lba, 2048);
    assert_eq!(table[0].num_sectors, 1000);
    assert_eq!(table[1].part_type, 0);
    assert_eq!(table[2].start_lba, 4000);
    assert_eq!(table[2].extent().sectors, 10);
}

#[test]
fn mbr_extents_checked() {
    // starts at block 0
    let mbr = mbr_with(&[(0, 0x83, 0, 10)]);
    assert!(matches!(parse_partition_table::<()>(&mbr, 100), Err(MbrError::InvalidPartExtent)));
    // ends at the last block
    let mbr = mbr_with(&[(1, 0x83, 50, 50)]);
    assert!(matches!(parse_partition_table::<()>(&mbr, 100), Err(MbrError::InvalidPartExtent)));
    // ends just before the last block
    let mbr = mbr_with(&[(1, 0x83, 50, 49)]);
    assert!(parse_partition_table::<()>(&mbr, 100).is_ok());
    // starts past the device
    let mbr = mbr_with(&[(3, 0x83, 200, 1)]);
    assert!(matches!(parse_partition_table::<()>(&mbr, 100), Err(MbrError::InvalidPartExtent)));
    // an unallocated entry is never checked
    let mbr = mbr_with(&[(3, 0x00, 200, 1)]);
    assert!(parse_partition_table::<()>(&mbr, 100).is_ok());
    // beyond the 32-bit limit
    let mbr = mbr_with(&[(0, 0x83, 0xffff_fff0, 0x20)]);
    assert!(matches!(parse_partition_table::<()>(&mbr, u64::MAX), Err(MbrError::InvalidPartExtent)));
}

#[test]
fn partition_entry_zeroed() {
    let e = PartitionEntry::zeroed();
    assert_eq!(e.part_type, 0);
    assert_eq!(e.start_lba, 0);
    assert_eq!(e.num_sectors, 0);
    assert!(e.is_valid(0));
}

fn disk_with_mbr(n: usize, entries: &[(usize, u8, u32, u32)]) -> RamDisk {
    let mut disk = RamDisk::new(n);
    disk.blocks[0] = mbr_with(entries);
    disk
}

#[test]
fn mbr_device_open_and_partitions() {
    let disk = disk_with_mbr(64, &[(0, 0x83, 8, 16), (1, 0x0c, 30, 4)]);
    let mut dev = match MbrDevice::open(disk) {
        Ok(d) => d,
        Err(_) => panic!("open failed"),
    };
    assert!(matches!(dev.partition(2), Err(MbrError::NoPartition)));
    assert!(matches!(dev.partition(4), Err(MbrError::NoPartition)));
    let mut part = match dev.partition(0) {
        Ok(p) => p,
        Err(_) => panic!("no partition 0"),
    };
    assert_eq!(part.total_blocks(), 16);
    let mut b = Block::zeroed();
    b.bytes[0] = 0xAB;
    assert!(part.write(&b, 3).is_ok());
    assert!(matches!(part.write(&b, 16), Err(MbrError::OutOfRangeAccess)));
    let mut r = Block::zeroed();
    assert!(part.read(&mut r, 3).is_ok());
    assert_eq!(r.bytes[0], 0xAB);
    assert!(matches!(part.read(&mut r, 16), Err(MbrError::OutOfRangeAccess)));
    assert!(part.flush().is_ok());
}

#[test]
fn mbr_partition_maps_blocks() {
    let mut disk = disk_with_mbr(64, &[(1, 0x0c, 30, 4)]);
    disk.blocks[31][7] = 9;
    let mut dev = match MbrDevice::open(disk) {
        Ok(d) => d,
        Err(_) => panic!("open failed"),
    };
    let part = match dev.partition(1) {
        Ok(p) => p,
        Err(_) => panic!("no partition 1"),
    };
    let mut r = Block::zeroed();
    assert!(part.read(&mut r, 1).is_ok());
    assert_eq!(r.bytes[7], 9);
}

#[test]
fn mbr_device_open_errors() {
    let disk = RamDisk::new(0);
    assert!(matches!(MbrDevice::open(disk), Err(MbrError::Device("out of range"))));
    let disk = RamDisk::new(8);
    assert!(matches!(MbrDevice::open(disk), Err(MbrError::InvalidMagic)));
    let disk = disk_with_mbr(8, &[(0, 0x83, 4, 4)]);
    assert!(matches!(MbrDevice::open(disk), Err(MbrError::InvalidPartExtent)));
}

#[test]
fn lfs_storage_reads_and_writes_blocks() {
    let disk = RamDisk::new(4);
    let mut st = LfsStorage::new(disk);
    let mut data = vec![0u8; 1024];
    data[0] = 1;
    data[512] = 2;
    data[1023] = 3;
    assert!(st.write(512, &data) == Ok(1024));
    let mut back = vec![0u8; 1024];
    assert!(st.read(512, &mut back) == Ok(1024));
    assert_eq!(back, data);
    assert!(st.erase(0, 4096) == Ok(4096));
    let disk = st.into_inner();
    assert_eq!(disk.flushes, 1);
    assert_eq!(disk.blocks[1][0], 1);
    assert_eq!(disk.blocks[2][511], 3);
}

#[test]
fn lfs_storage_past_end_fails() {
    let disk = RamDisk::new(2);
    let mut st = LfsStorage::new(disk);
    let mut buf = vec![0u8; 1024];
    assert!(st.read(512, &mut buf) == Err(FsError::Io));
    assert!(st.write(1024, &buf) == Err(FsError::Io));
    let mut empty: Vec<u8> = Vec::new();
    assert!(st.read(1 << 20, &mut empty) == Ok(0));
}

#[test]
fn mount_size_checked() {
    assert!(check_mount_size(BLOCK_COUNT as u64 - 1) == Err(FsError::NoSpace));
    assert!(check_mount_size(BLOCK_COUNT as u64).is_ok());
}

#[test]
fn arena_fills_up() {
    let mut a: Arena<u32> = Arena::new(2);
    assert!(matches!(a.allocate(10), Ok(0)));
    assert!(matches!(a.allocate(11), Ok(1)));
    assert!(matches!(a.allocate(12), Err((FsError::NoMemory, 12))));
    assert_eq!(a.len(), 2);
    assert_eq!(a.into_items(), vec![10, 11]);
}
