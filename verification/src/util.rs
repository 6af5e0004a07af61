//! Translation of the layer's errors and inode types into those of the
//! virtual file system.
use vstd::prelude::*;
use axerrno::{AxError, LinuxError};
use axfs_ng_vfs::{NodeType, VfsError};
use crate::dirent::InodeType;
use crate::errno::Errno;
use crate::wrapper::Ext4Error;

verus! {

#[verifier::external_type_specification]
#[verifier::external_body]
pub struct ExAxError(AxError);

#[verifier::external_type_specification]
#[verifier::external_body]
pub struct ExNodeType(NodeType);

/// Whether `axerrno::LinuxError` has a variant with this number: those that
/// `errno.h` defines, 1 to 133 but for 41 and 58.
pub open spec fn is_linux_errno(code: i32) -> bool {
    1 <= code <= 133 && code != 41 && code != 58
}

/// Calls `axerrno::LinuxError::try_from`, which succeeds exactly on the
/// numbers that `errno.h` defines.
#[verifier::external_body]
fn linux_errno_known(code: i32) -> (r: bool)
    ensures
        r == is_linux_errno(code),
{
    LinuxError::try_from(code).is_ok()
}

/// The VFS error that `AxError::from(LinuxError)` followed by
/// `AxError::canonicalize` makes of a Linux error number.
pub uninterp spec fn canonical_vfs_error(errno: i32) -> AxError;

/// Calls `AxError::from` on the Linux error with number `errno`, then
/// `AxError::canonicalize`; which of axerrno's kinds each number becomes is
/// left to the name.
#[verifier::external_body]
fn vfs_error_from_errno(errno: i32) -> (r: VfsError)
    requires
        is_linux_errno(errno),
    ensures
        r == canonical_vfs_error(errno),
{
    VfsError::from(LinuxError::try_from(errno).unwrap()).canonicalize()
}

/// The Linux error number that reports an ext4 error code to the VFS: the
/// code itself when it is a Linux error number, EIO otherwise.
pub open spec fn spec_vfs_errno(code: i32) -> i32 {
    if is_linux_errno(code) {
        code
    } else {
        Errno::EIO.number()
    }
}

/// The Linux error number that reports an ext4 error code to the VFS.
pub fn vfs_errno(code: i32) -> (r: i32)
    ensures
        r == spec_vfs_errno(code),
        is_linux_errno(r),
{
    if linux_errno_known(code) {
        code
    } else {
        Errno::EIO.code()
    }
}

/// The VFS error that reports an ext4 error: its code as a Linux error when
/// it is one, EIO otherwise, canonicalized.
pub fn into_vfs_err(err: Ext4Error) -> (r: VfsError)
    ensures
        r == canonical_vfs_error(spec_vfs_errno(err.code)),
{
    vfs_error_from_errno(vfs_errno(err.code))
}

/// The number by which the VFS node types are laid out, the directory-entry
/// type codes of POSIX: 0o10 for regular files, 0o4 for directories, and so on.
pub open spec fn spec_node_type_code(ty: InodeType) -> u8 {
    match ty {
        InodeType::RegularFile => 0o10,
        InodeType::Directory => 0o4,
        InodeType::CharacterDevice => 0o2,
        InodeType::BlockDevice => 0o6,
        InodeType::Fifo => 0o1,
        InodeType::Socket => 0o14,
        InodeType::Symlink => 0o12,
        InodeType::Unknown => 0,
    }
}

/// The VFS node type that `NodeType::from(u8)` makes of a type code.
pub uninterp spec fn vfs_node_type(code: u8) -> NodeType;

/// Calls `NodeType::from(u8)`, which gives the variant whose discriminant is
/// the code (0o10 a regular file, 0o4 a directory, ...), and `Unknown` for
/// other codes; the contract names the result.
#[verifier::external_body]
fn node_type_from_code(code: u8) -> (r: NodeType)
    ensures
        r == vfs_node_type(code),
{
    NodeType::from(code)
}

/// The VFS node type of an inode type: the node type of the same name.
pub fn into_vfs_type(ty: InodeType) -> (r: NodeType)
    ensures
        r == vfs_node_type(spec_node_type_code(ty)),
{
    let code: u8 = match ty {
        InodeType::RegularFile => 0o10,
        InodeType::Directory => 0o4,
        InodeType::CharacterDevice => 0o2,
        InodeType::BlockDevice => 0o6,
        InodeType::Fifo => 0o1,
        InodeType::Socket => 0o14,
        InodeType::Symlink => 0o12,
        InodeType::Unknown => 0,
    };
    node_type_from_code(code)
}

/// The node-type code of an inode type is the POSIX `d_type` of the same
/// name: DT_REG 8, DT_DIR 4, DT_CHR 2, DT_BLK 6, DT_FIFO 1, DT_SOCK 12,
/// DT_LNK 10, DT_UNKNOWN 0.
pub proof fn lemma_node_type_codes_are_d_types(ty: InodeType)
    ensures
        (spec_node_type_code(ty) == 8) <==> (ty == InodeType::RegularFile),
        (spec_node_type_code(ty) == 4) <==> (ty == InodeType::Directory),
        (spec_node_type_code(ty) == 2) <==> (ty == InodeType::CharacterDevice),
        (spec_node_type_code(ty) == 6) <==> (ty == InodeType::BlockDevice),
        (spec_node_type_code(ty) == 1) <==> (ty == InodeType::Fifo),
        (spec_node_type_code(ty) == 12) <==> (ty == InodeType::Socket),
        (spec_node_type_code(ty) == 10) <==> (ty == InodeType::Symlink),
        (spec_node_type_code(ty) == 0) <==> (ty == InodeType::Unknown),
{
}

/// Distinct inode types are given distinct node-type codes, so no two of
/// them reach the VFS as the same node type by way of the code.
pub proof fn lemma_node_type_code_injective(a: InodeType, b: InodeType)
    ensures
        spec_node_type_code(a) == spec_node_type_code(b) ==> a == b,
{
}

/// An ext4 error code that is no Linux error number reaches the VFS as EIO,
/// and one that is reaches it unchanged.
pub proof fn lemma_vfs_errno_fallback(code: i32)
    ensures
        !is_linux_errno(code) ==> spec_vfs_errno(code) == 5,
        is_linux_errno(code) ==> spec_vfs_errno(code) == code,
        is_linux_errno(spec_vfs_errno(code)),
{
}

} // verus!
