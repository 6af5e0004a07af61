//! The decisions that the ext4 layer's inode operations take around the
//! engine's calls: inode attributes, file creation, size changes, reads of
//! sparse files, and where a symbolic link's target is stored.
use vstd::prelude::*;
use vstd::utf8::*;
use crate::dirent::{FileKind, InodeType, spec_dirent_code, spec_inode_type_of_kind};
use crate::errno::Errno;
use crate::wrapper::{Ext4Error, Ext4Result};

verus! {

broadcast use vstd::utf8::encode_utf8_decode_utf8;

/// The block size that the layer reports in file attributes.
pub const ATTR_BLOCK_SIZE: u64 = 4096;

/// An inode's metadata as the ext4 engine reports it.
#[derive(Clone, Copy, Debug)]
pub struct FileMetadata {
    pub file_type: FileKind,
    pub links_count: u16,
    pub permissions: u16,
    pub uid: u32,
    pub gid: u32,
    pub size: u64,
    pub blocks_count: u64,
    pub atime: u32,
    pub mtime: u32,
    pub ctime: u32,
}

/// A file's attributes as the layer reports them.
#[derive(Clone, Copy, Debug)]
pub struct FileAttr {
    pub device: u64,
    pub nlink: u32,
    pub mode: u32,
    pub node_type: InodeType,
    pub uid: u32,
    pub gid: u32,
    pub size: u64,
    pub block_size: u64,
    pub blocks: u64,
    pub atime: u64,
    pub mtime: u64,
    pub ctime: u64,
}

/// The attributes that an inode's metadata gives: device 0, block size 4096,
/// the inode type of the file kind, and every other field widened from the
/// metadata.
pub open spec fn spec_attr_of(meta: FileMetadata) -> FileAttr {
    FileAttr {
        device: 0,
        nlink: meta.links_count as u32,
        mode: meta.permissions as u32,
        node_type: spec_inode_type_of_kind(meta.file_type),
        uid: meta.uid,
        gid: meta.gid,
        size: meta.size,
        block_size: ATTR_BLOCK_SIZE,
        blocks: meta.blocks_count,
        atime: meta.atime as u64,
        mtime: meta.mtime as u64,
        ctime: meta.ctime as u64,
    }
}

/// Overwrites `attr` with the attributes of the inode whose metadata is
/// `meta`.
pub fn fill_attr(attr: &mut FileAttr, meta: &FileMetadata)
    ensures
        *final(attr) == spec_attr_of(*meta),
{
    *attr = FileAttr {
        device: 0,
        nlink: meta.links_count as u32,
        mode: meta.permissions as u32,
        node_type: InodeType::from_file_kind(meta.file_type),
        uid: meta.uid,
        gid: meta.gid,
        size: meta.size,
        block_size: ATTR_BLOCK_SIZE,
        blocks: meta.blocks_count,
        atime: meta.atime as u64,
        mtime: meta.mtime as u64,
        ctime: meta.ctime as u64,
    };
}

/// The seconds that an inode's 32-bit timestamp field keeps of a time given
/// in seconds: the low 32 bits.
pub fn inode_timestamp(secs: u64) -> (r: u32)
    ensures
        r == secs as u32,
        secs <= u32::MAX ==> r == secs,
{
    secs as u32
}

/// What a new inode is created with: its directory-entry file type and its
/// permission bits.
#[derive(Clone, Copy, Debug, PartialEq, Eq, Structural)]
pub struct CreatePlan {
    pub file_type: u8,
    pub mode: u16,
}

/// Whether the layer can create inodes of this type.
pub open spec fn spec_can_create(ty: InodeType) -> bool {
    ty == InodeType::RegularFile || ty == InodeType::Directory || ty == InodeType::Symlink
}

/// The permission bits of a mode: its low nine bits.
pub open spec fn permission_bits(mode: u32) -> u32 {
    (mode % 0o1000) as u32
}

/// The permission bits a new inode gets: those of `mode`, or, when `mode` has
/// none, 0o755 for a directory and 0o644 for anything else.
pub open spec fn spec_effective_mode(ty: InodeType, mode: u32) -> u32 {
    if permission_bits(mode) == 0 {
        if ty == InodeType::Directory {
            0o755
        } else {
            0o644
        }
    } else {
        permission_bits(mode)
    }
}

/// The error for a request to create an inode of a type the layer cannot
/// create.
pub open spec fn spec_unsupported_type_error() -> Ext4Error {
    Ext4Error { code: Errno::EOPNOTSUPP.number(), message: Some("Unsupported inode type") }
}

/// Decides how to create an inode of type `ty` asked for with mode `mode`.
pub fn create_plan(ty: InodeType, mode: u32) -> (r: Ext4Result<CreatePlan>)
    ensures
        r is Ok <==> spec_can_create(ty),
        match r {
            Ok(plan) => plan.file_type == spec_dirent_code(ty) && plan.mode as u32
                == spec_effective_mode(ty, mode),
            Err(e) => e == spec_unsupported_type_error(),
        },
{
    let file_type: u8 = match ty {
        InodeType::RegularFile => crate::dirent::EXT4_DE_REG_FILE,
        InodeType::Directory => crate::dirent::EXT4_DE_DIR,
        InodeType::Symlink => crate::dirent::EXT4_DE_SYMLINK,
        _ => {
            return Err(Ext4Error::new(Errno::EOPNOTSUPP.code(), Some("Unsupported inode type")));
        },
    };
    assert(mode & 0o777 == mode % 0o1000) by (bit_vector);
    let effective: u32 = if mode & 0o777 == 0 {
        match ty {
            InodeType::Directory => 0o755,
            _ => 0o644,
        }
    } else {
        mode & 0o777
    };
    Ok(CreatePlan { file_type, mode: effective as u16 })
}

/// A new inode always gets some permission bits, and nothing but permission
/// bits.
pub proof fn lemma_effective_mode_is_permission(ty: InodeType, mode: u32)
    ensures
        spec_effective_mode(ty, mode) != 0,
        spec_effective_mode(ty, mode) <= 0o777,
        spec_effective_mode(ty, mode) & 0o777 == spec_effective_mode(ty, mode),
{
    let m: u32 = permission_bits(mode);
    assert(m < 0o1000);
    assert(m < 0o1000 ==> m & 0o777 == m) by (bit_vector);
    assert(0o755u32 & 0o777 == 0o755u32) by (bit_vector);
    assert(0o644u32 & 0o777 == 0o644u32) by (bit_vector);
}

/// The attributes of an inode report its file kind under the same name:
/// a regular file as a regular file, a directory as a directory, and so on.
pub proof fn lemma_attr_type_keeps_kind(meta: FileMetadata)
    ensures
        (spec_attr_of(meta).node_type == InodeType::RegularFile) <==> (meta.file_type == FileKind::RegularFile),
        (spec_attr_of(meta).node_type == InodeType::Directory) <==> (meta.file_type == FileKind::Directory),
        (spec_attr_of(meta).node_type == InodeType::Symlink) <==> (meta.file_type == FileKind::Symlink),
        (spec_attr_of(meta).node_type == InodeType::CharacterDevice) <==> (meta.file_type == FileKind::CharDevice),
        (spec_attr_of(meta).node_type == InodeType::BlockDevice) <==> (meta.file_type == FileKind::BlockDevice),
        (spec_attr_of(meta).node_type == InodeType::Fifo) <==> (meta.file_type == FileKind::Fifo),
        (spec_attr_of(meta).node_type == InodeType::Socket) <==> (meta.file_type == FileKind::Socket),
        (spec_attr_of(meta).node_type == InodeType::Unknown) <==> (meta.file_type == FileKind::Unknown),
        spec_attr_of(meta).mode == meta.permissions,
        spec_attr_of(meta).nlink == meta.links_count,
        spec_attr_of(meta).size == meta.size,
        spec_attr_of(meta).uid == meta.uid,
        spec_attr_of(meta).gid == meta.gid,
        spec_attr_of(meta).blocks == meta.blocks_count,
        spec_attr_of(meta).atime == meta.atime,
        spec_attr_of(meta).mtime == meta.mtime,
        spec_attr_of(meta).ctime == meta.ctime,
        spec_attr_of(meta).device == 0,
        spec_attr_of(meta).block_size == 4096,
{
}

/// A new inode keeps exactly the permission bits it was asked for, the low
/// nine bits of the mode; only a mode without any gets the default, 0o755
/// for a directory and 0o644 otherwise.
pub proof fn lemma_effective_mode_keeps_requested_bits(ty: InodeType, mode: u32)
    ensures
        mode & 0o777 != 0 ==> spec_effective_mode(ty, mode) == mode & 0o777,
        mode % 0o1000 != 0 ==> spec_effective_mode(ty, mode) == mode % 0o1000,
        mode & 0o777 == 0 && ty == InodeType::Directory ==> spec_effective_mode(ty, mode) == 0o755,
        mode & 0o777 == 0 && ty != InodeType::Directory ==> spec_effective_mode(ty, mode) == 0o644,
{
    assert(mode & 0o777 == mode % 0o1000) by (bit_vector);
}

/// The layer creates regular files, directories and symbolic links, each
/// with its directory-entry file type, and refuses every other type with
/// EOPNOTSUPP (95).
pub proof fn lemma_creatable_types(ty: InodeType)
    ensures
        spec_can_create(ty) <==> (ty == InodeType::RegularFile || ty == InodeType::Directory
            || ty == InodeType::Symlink),
        ty == InodeType::RegularFile ==> spec_dirent_code(ty) == 1,
        ty == InodeType::Directory ==> spec_dirent_code(ty) == 2,
        ty == InodeType::Symlink ==> spec_dirent_code(ty) == 7,
        spec_unsupported_type_error().code == 95,
{
}

/// The size to truncate a file to when its size is set to `len`: none when
/// it already has that size.
pub fn truncate_target(current_size: u64, len: u64) -> (r: Option<u64>)
    ensures
        r == (if len != current_size { Some(len) } else { None::<u64> }),
{
    if len != current_size {
        Some(len)
    } else {
        None
    }
}

/// Whether two byte strings are equal.
fn bytes_equal(a: &[u8], b: &[u8]) -> (r: bool)
    ensures
        r == (a@ == b@),
{
    if a.len() != b.len() {
        return false;
    }
    let mut i: usize = 0;
    while i < a.len()
        invariant
            a@.len() == b@.len(),
            i <= a@.len(),
            forall|j: int| 0 <= j < i ==> a@[j] == b@[j],
        decreases a@.len() - i,
    {
        if a[i] != b[i] {
            return false;
        }
        i += 1;
    }
    assert(a@ =~= b@);
    true
}

/// Whether a read failed only because it fell into a hole of a sparse file:
/// the engine reports that as ENOENT with the message "Logical block not
/// found in extent tree".
pub open spec fn is_sparse_hole(e: Ext4Error) -> bool {
    e.code == 2 && e.message is Some && e.message->0@ == "Logical block not found in extent tree"@
}

/// Whether a read failed only because it fell into a hole of a sparse file.
pub fn is_sparse_hole_error(e: &Ext4Error) -> (r: bool)
    ensures
        r == is_sparse_hole(*e),
{
    if e.code != 2 {
        return false;
    }
    match e.message {
        Some(m) => {
            let expected = "Logical block not found in extent tree";
            let same = bytes_equal(m.as_bytes(), expected.as_bytes());
            proof {
                if same {
                    assert(decode_utf8(encode_utf8(m@)) == m@);
                    assert(decode_utf8(encode_utf8(expected@)) == expected@);
                }
            }
            same
        },
        None => false,
    }
}

/// The outcome of reading into `buf` once the engine has answered `result`:
/// a read that fell into a hole of a sparse file fills the whole buffer with
/// zeros and succeeds with its length; any other answer is passed on, and
/// the buffer is left as the engine left it.
pub fn complete_read(result: Ext4Result<usize>, buf: &mut [u8]) -> (r: Ext4Result<usize>)
    ensures
        match result {
            Ok(n) => r == Ok::<usize, Ext4Error>(n) && final(buf)@ == old(buf)@,
            Err(e) => if is_sparse_hole(e) {
                &&& r == Ok::<usize, Ext4Error>(old(buf)@.len() as usize)
                &&& final(buf)@ == Seq::new(old(buf)@.len(), |i: int| 0u8)
            } else {
                r == Err::<usize, Ext4Error>(e) && final(buf)@ == old(buf)@
            },
        },
{
    match result {
        Ok(n) => Ok(n),
        Err(e) => {
            if is_sparse_hole_error(&e) {
                let n: usize = buf.len();
                let mut i: usize = 0;
                while i < n
                    invariant
                        n == buf@.len(),
                        i <= n,
                        forall|j: int| 0 <= j < i ==> buf@[j] == 0u8,
                    decreases n - i,
                {
                    buf[i] = 0;
                    i += 1;
                }
                assert(buf@ =~= Seq::new(n as nat, |i: int| 0u8));
                Ok(n)
            } else {
                Err(e)
            }
        },
    }
}

/// Only an ENOENT (2) error whose message is exactly "Logical block not
/// found in extent tree" is a hole of a sparse file; any other code, any
/// other message, or no message is a real failure.
pub proof fn lemma_sparse_hole_is_exact(e: Ext4Error)
    ensures
        e.code != 2 ==> !is_sparse_hole(e),
        e.message is None ==> !is_sparse_hole(e),
        is_sparse_hole(e) ==> e.message->0@ == "Logical block not found in extent tree"@,
        e.code == 2 && e.message is Some && e.message->0@ == "Logical block not found in extent tree"@
            ==> is_sparse_hole(e),
{
}

} // verus!
