use axerrno::AxError;
use axfs_ng_vfs::NodeType;
use ext4_compat::util::vfs_errno;
use ext4_compat::{into_vfs_err, into_vfs_type, CoreError, ErrorKind, Ext4Error, InodeType, EXT4_ROOT_INO};

#[test]
fn root_inode_is_two() {
    assert_eq!(EXT4_ROOT_INO, 2);
}

#[test]
fn new_keeps_code_and_message() {
    let e = Ext4Error::new(22, Some("bad"));
    assert_eq!(e.code, 22);
    assert_eq!(e.message, Some("bad"));
    let e = Ext4Error::new(-1, None);
    assert_eq!(e.code, -1);
    assert_eq!(e.message, None);
}

#[test]
fn core_errors_map_to_linux_codes() {
    let cases = [
        (ErrorKind::NotFound, 2),
        (ErrorKind::PermissionDenied, 13),
        (ErrorKind::AlreadyExists, 17),
        (ErrorKind::InvalidInput, 22),
        (ErrorKind::Io, 5),
        (ErrorKind::NoSpace, 28),
        (ErrorKind::NotEmpty, 39),
        (ErrorKind::Unsupported, 95),
        (ErrorKind::Corrupted, 117),
        (ErrorKind::Busy, 16),
        (ErrorKind::InvalidState, 77),
        (ErrorKind::Other, 5),
    ];
    for (kind, code) in cases {
        let e = Ext4Error::from_core_error(CoreError::new(kind, "engine message"));
        assert_eq!(e.code, code, "{:?}", kind);
        assert_eq!(e.message, Some("engine message"));
    }
}

#[test]
fn callback_error_comes_back_as_eio() {
    let e = Ext4Error::new(28, Some("disk full"));
    let core = e.to_core_error();
    assert_eq!(core.kind, ErrorKind::Io);
    assert_eq!(core.message, "disk full");
    let back = Ext4Error::from_core_error(core);
    assert_eq!(back.code, 5);
    assert_eq!(back.message, Some("disk full"));

    let e = Ext4Error::new(28, None);
    let back = Ext4Error::from_core_error(e.to_core_error());
    assert_eq!(back.code, 5);
    assert_eq!(back.message, Some("Error"));
}

#[test]
fn vfs_errno_falls_back_to_eio() {
    assert_eq!(vfs_errno(2), 2);
    assert_eq!(vfs_errno(133), 133);
    assert_eq!(vfs_errno(41), 5);
    assert_eq!(vfs_errno(58), 5);
    assert_eq!(vfs_errno(0), 5);
    assert_eq!(vfs_errno(-2), 5);
    assert_eq!(vfs_errno(134), 5);
}

#[test]
fn into_vfs_err_canonicalizes() {
    assert_eq!(into_vfs_err(Ext4Error::new(2, None)), AxError::NotFound);
    assert_eq!(into_vfs_err(Ext4Error::new(17, Some("x"))), AxError::AlreadyExists);
    assert_eq!(into_vfs_err(Ext4Error::new(39, None)), AxError::DirectoryNotEmpty);
    assert_eq!(into_vfs_err(Ext4Error::new(9999, None)), AxError::Io);
    assert_eq!(into_vfs_err(Ext4Error::new(41, None)), AxError::Io);
}

#[test]
fn into_vfs_err_keeps_linux_only_errors() {
    // EUCLEAN has no kind of its own in axerrno and stays a Linux error.
    let e = into_vfs_err(Ext4Error::new(117, None));
    assert_eq!(e.code(), -117);
}

#[test]
fn into_vfs_type_maps_each_type() {
    assert_eq!(into_vfs_type(InodeType::RegularFile), NodeType::RegularFile);
    assert_eq!(into_vfs_type(InodeType::Directory), NodeType::Directory);
    assert_eq!(into_vfs_type(InodeType::CharacterDevice), NodeType::CharacterDevice);
    assert_eq!(into_vfs_type(InodeType::BlockDevice), NodeType::BlockDevice);
    assert_eq!(into_vfs_type(InodeType::Fifo), NodeType::Fifo);
    assert_eq!(into_vfs_type(InodeType::Socket), NodeType::Socket);
    assert_eq!(into_vfs_type(InodeType::Symlink), NodeType::Symlink);
    assert_eq!(into_vfs_type(InodeType::Unknown), NodeType::Unknown);
}
