use ext4_compat::adapter::{check_transfer, device_failure, total_fs_blocks, BlockOp, FS_BLOCK_SIZE};
use ext4_compat::dirent::{EXT4_DE_DIR, EXT4_DE_REG_FILE, EXT4_DE_SYMLINK};
use ext4_compat::inode::{
    complete_read, create_plan, fill_attr, inode_timestamp, is_sparse_hole_error, truncate_target,
    FileAttr, FileMetadata,
};
use ext4_compat::symlink::{
    check_symlink_block, check_symlink_written, readlink_source, symlink_storage, symlink_target,
    write_inline_symlink, ReadlinkSource, SymlinkStorage,
};
use ext4_compat::{ErrorKind, Ext4Error, FileKind, FsStat, InodeType};

fn blank_attr() -> FileAttr {
    FileAttr {
        device: 9,
        nlink: 9,
        mode: 9,
        node_type: InodeType::Unknown,
        uid: 9,
        gid: 9,
        size: 9,
        block_size: 9,
        blocks: 9,
        atime: 9,
        mtime: 9,
        ctime: 9,
    }
}

#[test]
fn fill_attr_copies_metadata() {
    let meta = FileMetadata {
        file_type: FileKind::Socket,
        links_count: 3,
        permissions: 0o640,
        uid: 1000,
        gid: 100,
        size: 12345,
        blocks_count: 32,
        atime: 1_700_000_000,
        mtime: 1_700_000_001,
        ctime: 1_700_000_002,
    };
    let mut attr = blank_attr();
    fill_attr(&mut attr, &meta);
    assert_eq!(attr.device, 0);
    assert_eq!(attr.nlink, 3);
    assert_eq!(attr.mode, 0o640);
    assert_eq!(attr.node_type, InodeType::Socket);
    assert_eq!(attr.uid, 1000);
    assert_eq!(attr.gid, 100);
    assert_eq!(attr.size, 12345);
    assert_eq!(attr.block_size, 4096);
    assert_eq!(attr.blocks, 32);
    assert_eq!(attr.atime, 1_700_000_000);
    assert_eq!(attr.mtime, 1_700_000_001);
    assert_eq!(attr.ctime, 1_700_000_002);
}

#[test]
fn timestamps_keep_low_32_bits() {
    assert_eq!(inode_timestamp(1_700_000_000), 1_700_000_000);
    assert_eq!(inode_timestamp(u32::MAX as u64), u32::MAX);
    assert_eq!(inode_timestamp((1u64 << 32) + 5), 5);
}

#[test]
fn create_plan_default_modes() {
    let p = create_plan(InodeType::Directory, 0).unwrap();
    assert_eq!(p.file_type, EXT4_DE_DIR);
    assert_eq!(p.mode, 0o755);
    let p = create_plan(InodeType::RegularFile, 0o170000).unwrap();
    assert_eq!(p.file_type, EXT4_DE_REG_FILE);
    assert_eq!(p.mode, 0o644);
    let p = create_plan(InodeType::Symlink, 0).unwrap();
    assert_eq!(p.file_type, EXT4_DE_SYMLINK);
    assert_eq!(p.mode, 0o644);
}

#[test]
fn create_plan_keeps_permission_bits() {
    let p = create_plan(InodeType::RegularFile, 0o100600).unwrap();
    assert_eq!(p.mode, 0o600);
    let p = create_plan(InodeType::Directory, 0o4777).unwrap();
    assert_eq!(p.mode, 0o777);
    let p = create_plan(InodeType::Directory, 0o1).unwrap();
    assert_eq!(p.mode, 0o1);
}

#[test]
fn create_plan_rejects_other_types() {
    for ty in [
        InodeType::Fifo,
        InodeType::Socket,
        InodeType::CharacterDevice,
        InodeType::BlockDevice,
        InodeType::Unknown,
    ] {
        let e = create_plan(ty, 0o644).unwrap_err();
        assert_eq!(e.code, 95);
        assert_eq!(e.message, Some("Unsupported inode type"));
    }
}

#[test]
fn truncate_only_on_change() {
    assert_eq!(truncate_target(100, 100), None);
    assert_eq!(truncate_target(100, 50), Some(50));
    assert_eq!(truncate_target(100, 4096), Some(4096));
    assert_eq!(truncate_target(0, 0), None);
}

#[test]
fn sparse_hole_reads_zeros() {
    let mut buf = [7u8; 16];
    let hole = Ext4Error::new(2, Some("Logical block not found in extent tree"));
    assert!(is_sparse_hole_error(&hole));
    let r = complete_read(Err(hole), &mut buf);
    assert_eq!(r.unwrap(), 16);
    assert_eq!(buf, [0u8; 16]);
}

#[test]
fn other_read_errors_pass_through() {
    let mut buf = [7u8; 4];
    let other = Ext4Error::new(2, Some("Inode not found"));
    assert!(!is_sparse_hole_error(&other));
    let r = complete_read(Err(other), &mut buf);
    assert_eq!(r.unwrap_err().message, Some("Inode not found"));
    assert_eq!(buf, [7u8; 4]);

    let wrong_code = Ext4Error::new(5, Some("Logical block not found in extent tree"));
    let r = complete_read(Err(wrong_code), &mut buf);
    assert_eq!(r.unwrap_err().code, 5);
    assert_eq!(buf, [7u8; 4]);

    let no_message = Ext4Error::new(2, None);
    assert!(complete_read(Err(no_message), &mut buf).is_err());
}

#[test]
fn successful_read_passes_through() {
    let mut buf = [1u8, 2, 3];
    assert_eq!(complete_read(Ok(2), &mut buf).unwrap(), 2);
    assert_eq!(buf, [1, 2, 3]);
}

#[test]
fn symlink_storage_threshold() {
    assert_eq!(symlink_storage(0), SymlinkStorage::Inline);
    assert_eq!(symlink_storage(59), SymlinkStorage::Inline);
    assert_eq!(symlink_storage(60), SymlinkStorage::DataBlocks);
    assert_eq!(symlink_storage(4000), SymlinkStorage::DataBlocks);
}

#[test]
fn fast_symlink_round_trip() {
    let mut area = [0xAAu8; 60];
    let target = b"/usr/lib/libc.so.6";
    write_inline_symlink(&mut area, target);
    assert_eq!(&area[..target.len()], target);
    assert!(area[target.len()..].iter().all(|b| *b == 0xAA));
    let src = readlink_source(0o120777, target.len() as u64).unwrap();
    assert_eq!(src, ReadlinkSource::Inline(target.len()));
    if let ReadlinkSource::Inline(n) = src {
        assert_eq!(symlink_target(&area, n), target.to_vec());
    }
}

#[test]
fn readlink_sources() {
    assert_eq!(readlink_source(0o120777, 0).unwrap(), ReadlinkSource::Empty);
    assert_eq!(readlink_source(0o120777, 59).unwrap(), ReadlinkSource::Inline(59));
    assert_eq!(readlink_source(0o120777, 60).unwrap(), ReadlinkSource::DataBlock(60));
    let e = readlink_source(0o100644, 10).unwrap_err();
    assert_eq!(e.kind, ErrorKind::InvalidInput);
    assert_eq!(e.message, "Not a symlink");
    assert!(readlink_source(0o040755, 0).is_err());
}

#[test]
fn symlink_block_checks() {
    let e = check_symlink_block(0).unwrap_err();
    assert_eq!(e.kind, ErrorKind::NotFound);
    assert_eq!(e.message, "Symlink data block not found");
    assert!(check_symlink_block(1234).is_ok());
    let block = vec![b'x'; 4096];
    assert_eq!(symlink_target(&block, 100).len(), 100);
}

#[test]
fn symlink_write_must_be_whole() {
    assert!(check_symlink_written(80, 80).is_ok());
    let e = check_symlink_written(79, 80).unwrap_err();
    assert_eq!(e.code, 5);
    assert_eq!(e.message, Some("Failed to write symlink target"));
}

#[test]
fn total_blocks_rounds_down() {
    assert_eq!(total_fs_blocks(16, 512), 2);
    assert_eq!(total_fs_blocks(15, 512), 1);
    assert_eq!(total_fs_blocks(7, 512), 0);
    assert_eq!(total_fs_blocks(1 << 20, 4096), 1 << 20);
    assert_eq!(FS_BLOCK_SIZE, 4096);
}

#[test]
fn transfer_checks() {
    assert_eq!(check_transfer(BlockOp::Read, 1024, 8, 2, 512, 10).unwrap(), 1024);
    assert_eq!(check_transfer(BlockOp::Write, 4096, 0, 8, 512, 8).unwrap(), 4096);
    let e = check_transfer(BlockOp::Read, 1023, 0, 2, 512, 10).unwrap_err();
    assert_eq!(e.kind, ErrorKind::InvalidInput);
    assert_eq!(e.message, "Buffer too small");
    let e = check_transfer(BlockOp::Read, 1024, 9, 2, 512, 10).unwrap_err();
    assert_eq!(e.kind, ErrorKind::Io);
    assert_eq!(e.message, "Read out of bounds");
    let e = check_transfer(BlockOp::Write, 1024, 9, 2, 512, 10).unwrap_err();
    assert_eq!(e.message, "Write out of bounds");
    let e = check_transfer(BlockOp::Write, 10, 9, 2, 512, 10).unwrap_err();
    assert_eq!(e.message, "Buffer too small");
}

#[test]
fn device_failures() {
    assert_eq!(device_failure(Some(BlockOp::Read)).message, "Block read failed");
    assert_eq!(device_failure(Some(BlockOp::Write)).message, "Block write failed");
    assert_eq!(device_failure(None).message, "Block flush failed");
    assert_eq!(device_failure(None).kind, ErrorKind::Io);
}

#[test]
fn fs_stat_default_is_zero() {
    let s = FsStat::default();
    assert_eq!(s.block_size, 0);
    assert_eq!(s.blocks_count, 0);
    assert_eq!(s.free_inodes_count, 0);
}
