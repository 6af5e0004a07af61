use ext4_compat::dirent::{EXT4_DE_DIR, EXT4_DE_REG_FILE, EXT4_DE_SYMLINK};
use ext4_compat::{DirEntry, DirReaderResult, FileKind, InodeType, LookupResult};

fn entries() -> Vec<DirEntry> {
    vec![
        DirEntry::new(2, b".".to_vec(), EXT4_DE_DIR),
        DirEntry::new(11, b"hello.txt".to_vec(), EXT4_DE_REG_FILE),
        DirEntry::new(12, b"link".to_vec(), EXT4_DE_SYMLINK),
        DirEntry::new(13, b"pipe".to_vec(), 5),
    ]
}

#[test]
fn dir_entry_accessors() {
    let e = DirEntry::new(11, b"hello.txt".to_vec(), EXT4_DE_REG_FILE);
    assert_eq!(e.ino(), 11);
    assert_eq!(e.name(), b"hello.txt");
    assert_eq!(e.inode_type(), InodeType::RegularFile);
}

#[test]
fn dir_entry_type_bytes() {
    assert_eq!(DirEntry::new(1, vec![], 2).inode_type(), InodeType::Directory);
    assert_eq!(DirEntry::new(1, vec![], 1).inode_type(), InodeType::RegularFile);
    assert_eq!(DirEntry::new(1, vec![], 7).inode_type(), InodeType::Symlink);
    assert_eq!(DirEntry::new(1, vec![], 0).inode_type(), InodeType::Unknown);
    assert_eq!(DirEntry::new(1, vec![], 3).inode_type(), InodeType::Unknown);
    assert_eq!(DirEntry::new(1, vec![], 6).inode_type(), InodeType::Unknown);
}

#[test]
fn dirent_code_round_trip() {
    for ty in [InodeType::Directory, InodeType::RegularFile, InodeType::Symlink] {
        assert_eq!(DirEntry::new(1, vec![], ty.dirent_code()).inode_type(), ty);
    }
    for ty in [
        InodeType::Fifo,
        InodeType::Socket,
        InodeType::CharacterDevice,
        InodeType::BlockDevice,
        InodeType::Unknown,
    ] {
        assert_eq!(ty.dirent_code(), 0);
        assert_eq!(DirEntry::new(1, vec![], ty.dirent_code()).inode_type(), InodeType::Unknown);
    }
}

#[test]
fn file_kind_maps_to_inode_type() {
    assert_eq!(InodeType::from_file_kind(FileKind::CharDevice), InodeType::CharacterDevice);
    assert_eq!(InodeType::from_file_kind(FileKind::BlockDevice), InodeType::BlockDevice);
    assert_eq!(InodeType::from_file_kind(FileKind::Fifo), InodeType::Fifo);
    assert_eq!(InodeType::from_file_kind(FileKind::Socket), InodeType::Socket);
    assert_eq!(InodeType::from_file_kind(FileKind::Directory), InodeType::Directory);
    assert_eq!(InodeType::from_lookup_kind(FileKind::Fifo), InodeType::Unknown);
    assert_eq!(InodeType::from_lookup_kind(FileKind::Symlink), InodeType::Symlink);
}

#[test]
fn lookup_entry_round_trip() {
    let lr = LookupResult::new(42, "docs", FileKind::Directory);
    let e = lr.entry();
    assert_eq!(e.ino(), 42);
    assert_eq!(e.name(), b"docs");
    assert_eq!(e.inode_type(), InodeType::Directory);

    let lr = LookupResult::new(7, "héllo", FileKind::RegularFile);
    let e = lr.entry();
    assert_eq!(e.name(), "héllo".as_bytes());
    assert_eq!(e.inode_type(), InodeType::RegularFile);

    let lr = LookupResult::new(8, "dev", FileKind::CharDevice);
    assert_eq!(lr.entry().inode_type(), InodeType::Unknown);
}

#[test]
fn reader_walks_to_end() {
    let mut r = DirReaderResult::new(entries(), 0);
    let mut seen = Vec::new();
    while let Some(e) = r.current() {
        seen.push(e.ino());
        assert!(r.step().is_ok());
    }
    assert_eq!(seen, vec![2, 11, 12, 13]);
    assert_eq!(r.offset(), 4);
    assert!(r.step().is_ok());
    assert_eq!(r.offset(), 4);
    assert!(r.current().is_none());
}

#[test]
fn reader_starts_at_offset() {
    let r = DirReaderResult::new(entries(), 2);
    assert_eq!(r.offset(), 2);
    assert_eq!(r.entry().name(), b"link");
    assert_eq!(r.current().unwrap().ino(), 12);
}

#[test]
fn reader_past_end_stays() {
    let mut r = DirReaderResult::new(entries(), 10);
    assert!(r.current().is_none());
    assert!(r.step().is_ok());
    assert_eq!(r.offset(), 10);
}

#[test]
fn reader_empty_directory() {
    let mut r = DirReaderResult::new(Vec::new(), 0);
    assert!(r.current().is_none());
    r.step().unwrap();
    assert_eq!(r.offset(), 0);
}
