//! Verified core of an ext4 compatibility layer: error codes, directory
//! entries, inode attributes, symlink storage and block-transfer checks that
//! sit between an ext4 engine, a block device and a virtual file system.
mod errno;
pub mod wrapper;
pub mod dirent;
pub mod util;
pub mod inode;
pub mod symlink;
pub mod adapter;
pub mod hal;

pub use errno::Errno;
pub use wrapper::{CoreError, ErrorKind, Ext4Error, Ext4Result, FsStat, EXT4_ROOT_INO};
pub use dirent::{DirEntry, DirReaderResult, FileKind, InodeType, LookupResult};
pub use util::{into_vfs_err, into_vfs_type};
pub use hal::ArceOsHal;
