//! The resolver against a real FAT16 volume held in memory.

use std::cell::RefCell;

use embedded_sdmmc::{Block, BlockCount, BlockDevice, BlockIdx, TimeSource, Timestamp};
use firefly_hal::errors::{FSError, ShortNameError};
use firefly_hal::fat::{classify_volume_error, OpenMode, Volume};

const BLOCK: usize = 512;
/// Blocks in the FAT partition. Enough data clusters (one block each)
/// remain past the metadata for the volume to count as FAT16.
const PART_BLOCKS: u32 = 4600;
const FAT_BLOCKS: u32 = 18;
const ROOT_ENTRIES: u16 = 512;

struct MemDisk {
    blocks: RefCell<Vec<[u8; BLOCK]>>,
}

#[derive(Debug)]
struct DiskError;

impl std::fmt::Display for DiskError {
    fn fmt(&self, f: &mut std::fmt::Formatter<'_>) -> std::fmt::Result {
        f.write_str("out-of-range block access")
    }
}

impl std::error::Error for DiskError {}

impl BlockDevice for MemDisk {
    type Error = DiskError;

    fn read(&self, blocks: &mut [Block], start: BlockIdx) -> Result<(), DiskError> {
        let store = self.blocks.borrow();
        for (i, block) in blocks.iter_mut().enumerate() {
            let idx = start.0 as usize + i;
            let data = store.get(idx).ok_or(DiskError)?;
            block.contents.copy_from_slice(data);
        }
        Ok(())
    }

    fn write(&self, blocks: &[Block], start: BlockIdx) -> Result<(), DiskError> {
        let mut store = self.blocks.borrow_mut();
        for (i, block) in blocks.iter().enumerate() {
            let idx = start.0 as usize + i;
            let data = store.get_mut(idx).ok_or(DiskError)?;
            data.copy_from_slice(&block.contents);
        }
        Ok(())
    }

    fn num_blocks(&self) -> Result<BlockCount, DiskError> {
        Ok(BlockCount(self.blocks.borrow().len() as u32))
    }
}

struct FixedClock;

impl TimeSource for FixedClock {
    fn get_timestamp(&self) -> Timestamp {
        Timestamp {
            year_since_1970: 0,
            zero_indexed_month: 0,
            zero_indexed_day: 0,
            hours: 0,
            minutes: 0,
            seconds: 0,
        }
    }
}

fn put_u16(buf: &mut [u8], off: usize, v: u16) {
    buf[off..off + 2].copy_from_slice(&v.to_le_bytes());
}

fn put_u32(buf: &mut [u8], off: usize, v: u32) {
    buf[off..off + 4].copy_from_slice(&v.to_le_bytes());
}

/// A freshly formatted FAT16 disk: an MBR with one partition starting at
/// block 1, a boot sector, two FATs, and an empty root directory.
fn blank_disk() -> MemDisk {
    let total = 1 + PART_BLOCKS as usize;
    let mut blocks = vec![[0u8; BLOCK]; total];

    // Master Boot Record: one FAT16 partition covering the rest.
    {
        let mbr = &mut blocks[0];
        mbr[446] = 0x00; // non-bootable
        mbr[446 + 4] = 0x06; // FAT16
        put_u32(mbr, 446 + 8, 1); // starting block
        put_u32(mbr, 446 + 12, PART_BLOCKS);
        put_u16(mbr, 510, 0xAA55);
    }

    // Boot sector of the partition.
    {
        let bpb = &mut blocks[1];
        bpb[0] = 0xEB;
        bpb[1] = 0x3C;
        bpb[2] = 0x90;
        bpb[3..11].copy_from_slice(b"MSDOS5.0");
        put_u16(bpb, 11, BLOCK as u16); // bytes per block
        bpb[13] = 1; // blocks per cluster
        put_u16(bpb, 14, 1); // reserved blocks
        bpb[16] = 2; // number of FATs
        put_u16(bpb, 17, ROOT_ENTRIES);
        put_u16(bpb, 19, PART_BLOCKS as u16);
        bpb[21] = 0xF8; // media descriptor
        put_u16(bpb, 22, FAT_BLOCKS as u16);
        put_u16(bpb, 24, 32); // blocks per track
        put_u16(bpb, 26, 64); // heads
        put_u32(bpb, 28, 1); // hidden blocks
        bpb[36] = 0x80; // drive number
        bpb[38] = 0x29; // extended boot signature
        put_u32(bpb, 39, 0x1234_5678); // volume id
        bpb[43..54].copy_from_slice(b"NO NAME    ");
        bpb[54..62].copy_from_slice(b"FAT16   ");
        put_u16(bpb, 510, 0xAA55);
    }

    // Both FATs: media marker and end-of-chain for the two reserved
    // entries, and the entries past the last real cluster marked
    // reserved so the allocator never walks off the data area.
    let root_blocks = (ROOT_ENTRIES as u32 * 32) / BLOCK as u32;
    let cluster_count = PART_BLOCKS - (1 + 2 * FAT_BLOCKS + root_blocks);
    for fat in 0..2u32 {
        let first = (2 + fat * FAT_BLOCKS) as usize;
        put_u16(&mut blocks[first], 0, 0xFFF8);
        put_u16(&mut blocks[first], 2, 0xFFFF);
        for entry in (2 + cluster_count)..(FAT_BLOCKS * (BLOCK as u32 / 2)) {
            let byte = 2 * entry as usize;
            put_u16(&mut blocks[first + byte / BLOCK], byte % BLOCK, 0xFFFF);
        }
    }

    MemDisk {
        blocks: RefCell::new(blocks),
    }
}

/// Write a long-filename chain by hand into the first root-directory
/// block: one LFN entry for `long` (up to 13 characters), then the 8.3
/// entry it belongs to.
fn plant_long_named_file(disk: &MemDisk, slot: usize, short: &str, long: &str) {
    let sfn = embedded_sdmmc::ShortFileName::create_from_str(short).unwrap();
    let mut contents = [0x20u8; 11];
    let base = sfn.base_name();
    let ext = sfn.extension();
    contents[..base.len()].copy_from_slice(base);
    contents[8..8 + ext.len()].copy_from_slice(ext);
    let csum = sfn.csum();

    let mut lfn = [0u8; 32];
    lfn[0] = 0x41; // first and last chunk of the name
    lfn[11] = 0x0F; // long-name attribute
    lfn[13] = csum;
    let mut units: Vec<u16> = long.encode_utf16().collect();
    assert!(units.len() <= 13);
    if units.len() < 13 {
        units.push(0x0000);
    }
    while units.len() < 13 {
        units.push(0xFFFF);
    }
    let offsets: [usize; 13] = [1, 3, 5, 7, 9, 14, 16, 18, 20, 22, 24, 28, 30];
    for (unit, off) in units.iter().zip(offsets) {
        lfn[off..off + 2].copy_from_slice(&unit.to_le_bytes());
    }

    let mut entry = [0u8; 32];
    entry[..11].copy_from_slice(&contents);
    entry[11] = 0x20; // archive

    let root_first = (2 + 2 * FAT_BLOCKS) as usize;
    let mut store = disk.blocks.borrow_mut();
    let block = &mut store[root_first];
    block[slot * 32..slot * 32 + 32].copy_from_slice(&lfn);
    block[(slot + 1) * 32..(slot + 1) * 32 + 32].copy_from_slice(&entry);
}

#[test]
fn files_live_and_die_in_the_root() {
    let mut volume = Volume::new(blank_disk(), FixedClock).unwrap();

    // Create a file, write to it, and close everything again.
    let file = volume.create_file(&[b"SAVE.TXT".to_vec()]).unwrap();
    volume.write_file(&file, b"twelve bytes").unwrap();
    volume.flush_file(&file).unwrap();
    volume.close_file(file);

    assert_eq!(volume.get_file_size(&[b"SAVE.TXT".to_vec()]), Ok(12));

    // Read the contents back.
    let file = volume.open_file(&[b"SAVE.TXT".to_vec()]).unwrap();
    let mut buf = vec![0u8; 32];
    let n = volume.read_file(&file, &mut buf).unwrap();
    volume.close_file(file);
    assert_eq!(&buf[..n], b"twelve bytes");

    // The explicit fail-if-exists mode refuses an existing file.
    assert!(matches!(
        volume.open_file_with(&[b"SAVE.TXT".to_vec()], OpenMode::ReadWriteCreate),
        Err(FSError::FileAlreadyExists)
    ));

    // Creating again replaces the file: it comes back empty.
    let file = volume.create_file(&[b"SAVE.TXT".to_vec()]).unwrap();
    volume.close_file(file);
    assert_eq!(volume.get_file_size(&[b"SAVE.TXT".to_vec()]), Ok(0));

    // An empty path names a directory, never a file.
    assert!(matches!(
        volume.open_file(&[]),
        Err(FSError::OpenedDirAsFile)
    ));

    // The listing shows the file and nothing hidden. An entry without
    // a long name is shown under its 8.3 base name, as every backend
    // does; the full 8.3 name stays available.
    let entries = volume.iter_dir(&[]).unwrap();
    assert_eq!(entries.len(), 1);
    assert_eq!(entries[0].display_name(), b"SAVE".to_vec());
    assert_eq!(entries[0].short_display(), b"SAVE.TXT".to_vec());

    volume.remove_file(&[b"SAVE.TXT".to_vec()]).unwrap();
    assert!(matches!(
        volume.open_file(&[b"SAVE.TXT".to_vec()]),
        Err(FSError::NotFound)
    ));
}

#[test]
fn directories_resolve_one_segment_at_a_time() {
    let mut volume = Volume::new(blank_disk(), FixedClock).unwrap();

    let root = volume.get_dir(&[]).unwrap();
    volume.make_dir(&root, b"DATA").unwrap();
    volume.close_dir(root);

    let data = volume.get_dir(&[b"DATA".to_vec()]).unwrap();
    volume.make_dir(&data, b"ALICE").unwrap();
    volume.close_dir(data);

    let path = [b"DATA".to_vec(), b"ALICE".to_vec()];
    let file = volume.create_file(&[&path[..], &[b"1.BIN".to_vec()]].concat()).unwrap();
    volume.write_file(&file, &[7, 8, 9]).unwrap();
    volume.close_file(file);

    let nested = volume.get_dir(&path).unwrap();
    volume.close_dir(nested);

    assert_eq!(
        volume.get_file_size(&[b"DATA".to_vec(), b"ALICE".to_vec(), b"1.BIN".to_vec()]),
        Ok(3)
    );
    assert!(matches!(
        volume.get_dir(&[b"NOPE".to_vec()]),
        Err(FSError::NotFound)
    ));

    // A nested listing skips the dot entries every subdirectory holds.
    let entries = volume.iter_dir(&[b"DATA".to_vec()]).unwrap();
    assert_eq!(entries.len(), 1);
    assert_eq!(entries[0].display_name(), b"ALICE".to_vec());
    assert_eq!(entries[0].kind(), firefly_hal::EntryKind::Dir);
}

#[test]
fn long_names_resolve_through_the_directory_scan() {
    let disk = blank_disk();
    plant_long_named_file(&disk, 0, "SAVEDA~1.TXT", "Save Data.txt");
    let mut volume = Volume::new(disk, FixedClock).unwrap();

    let root = volume.get_dir(&[]).unwrap();
    // The long name is found by scanning; its 8.3 name comes back.
    assert_eq!(
        volume.get_short_name(&root, b"Save Data.txt"),
        Ok(b"SAVEDA~1.TXT".to_vec())
    );
    // Long-name matching is byte-exact, so a case change misses.
    assert_eq!(
        volume.get_short_name(&root, b"save data.txt"),
        Err(FSError::NotFound)
    );
    // A name already in 8.3 form comes back unchanged.
    assert_eq!(
        volume.get_short_name(&root, b"SAVEDA~1.TXT"),
        Ok(b"SAVEDA~1.TXT".to_vec())
    );
    volume.close_dir(root);

    // The file opens under its long name.
    let file = volume.open_file(&[b"Save Data.txt".to_vec()]).unwrap();
    volume.close_file(file);

    // The listing shows the reconstructed long name.
    let entries = volume.iter_dir(&[]).unwrap();
    assert_eq!(entries.len(), 1);
    assert_eq!(entries[0].display_name(), b"Save Data.txt".to_vec());
}

#[test]
fn an_unformatted_disk_is_refused() {
    let disk = MemDisk {
        blocks: RefCell::new(vec![[0u8; BLOCK]; 64]),
    };
    assert!(Volume::new(disk, FixedClock).is_err());
}

#[test]
fn handle_exhaustion_reports_its_own_kind() {
    // The volume manager caps concurrently open directories at 48.
    let mut volume = Volume::new(blank_disk(), FixedClock).unwrap();
    let mut held = Vec::new();
    for _ in 0..48 {
        held.push(volume.open_root().unwrap());
    }
    assert!(matches!(
        volume.open_root(),
        Err(FSError::TooManyOpenDirs)
    ));
    for handle in held {
        volume.close_dir(handle);
    }
}

#[test]
fn a_full_volume_reports_its_own_kind() {
    let mut volume = Volume::new(blank_disk(), FixedClock).unwrap();
    let file = volume.create_file(&[b"BIG.BIN".to_vec()]).unwrap();
    let chunk = vec![0xABu8; 512];
    let mut result = Ok(());
    // Write one cluster at a time until the data area runs out.
    for _ in 0..6000 {
        result = volume.write_file(&file, &chunk);
        if result.is_err() {
            break;
        }
    }
    assert!(matches!(result, Err(FSError::DiskFull)));
    volume.close_file(file);
}

#[test]
fn error_texts_classify_to_their_kinds() {
    assert_eq!(
        classify_volume_error("TooManyOpenDirs"),
        FSError::TooManyOpenDirs
    );
    assert_eq!(classify_volume_error("DiskFull"), FSError::DiskFull);
    assert_eq!(classify_volume_error("ReadOnly"), FSError::ReadOnly);
    assert_eq!(classify_volume_error("LockError"), FSError::Deadlock);
    assert_eq!(
        classify_volume_error("FilenameError(NameTooLong)"),
        FSError::FilenameError(ShortNameError::NameTooLong)
    );
    assert_eq!(
        classify_volume_error("DeviceError(DiskError)"),
        FSError::DeviceError("DeviceError(DiskError)".to_string())
    );
    assert_eq!(classify_volume_error("SomethingElse"), FSError::Other);
    // The classifier sees exactly the Debug text of the outside enum.
    let e: embedded_sdmmc::Error<DiskError> = embedded_sdmmc::Error::TooManyOpenFiles;
    assert_eq!(
        classify_volume_error(&format!("{e:?}")),
        FSError::TooManyOpenFiles
    );
    let e: embedded_sdmmc::Error<DiskError> = embedded_sdmmc::Error::DeviceError(DiskError);
    assert!(matches!(
        classify_volume_error(&format!("{e:?}")),
        FSError::DeviceError(_)
    ));
}
