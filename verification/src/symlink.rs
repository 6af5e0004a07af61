//! Where a symbolic link keeps its target: inside the inode when it is short
//! (a fast symlink), in a data block otherwise.
use vstd::prelude::*;
use vstd::slice::slice_to_vec;
use crate::errno::Errno;
use crate::wrapper::{CoreError, ErrorKind, Ext4Error, Ext4Result};

verus! {

/// The bytes of an inode's block-map area, which holds a fast symlink's
/// target.
pub const INLINE_AREA_SIZE: usize = 60;

/// The bits of an inode's mode that give its type.
pub const EXT4_INODE_MODE_TYPE_MASK: u16 = 0xF000;

/// The type bits of a symbolic link's inode.
pub const EXT4_INODE_MODE_SOFTLINK: u16 = 0xA000;

/// Where a symbolic link's target is written.
#[derive(Clone, Copy, Debug, PartialEq, Eq, Structural)]
pub enum SymlinkStorage {
    /// In the inode's block-map area.
    Inline,
    /// In the file's data blocks.
    DataBlocks,
}

/// Where a target of `target_len` bytes is stored: inline when it is
/// shorter than the inline area.
pub open spec fn spec_symlink_storage(target_len: usize) -> SymlinkStorage {
    if target_len < INLINE_AREA_SIZE {
        SymlinkStorage::Inline
    } else {
        SymlinkStorage::DataBlocks
    }
}

/// Where a target of `target_len` bytes is stored.
pub fn symlink_storage(target_len: usize) -> (r: SymlinkStorage)
    ensures
        r == spec_symlink_storage(target_len),
{
    if target_len < INLINE_AREA_SIZE {
        SymlinkStorage::Inline
    } else {
        SymlinkStorage::DataBlocks
    }
}

/// The inline area once a target has been written to its start.
pub open spec fn spec_write_inline(area: Seq<u8>, target: Seq<u8>) -> Seq<u8> {
    target + area.subrange(target.len() as int, area.len() as int)
}

/// Writes a fast symlink's target to the start of the inode's inline area;
/// the rest of the area keeps its bytes.
pub fn write_inline_symlink(area: &mut [u8], target: &[u8])
    requires
        old(area)@.len() == INLINE_AREA_SIZE,
        target@.len() < INLINE_AREA_SIZE,
    ensures
        final(area)@ == spec_write_inline(old(area)@, target@),
{
    let n: usize = target.len();
    let mut i: usize = 0;
    while i < n
        invariant
            n == target@.len(),
            n < INLINE_AREA_SIZE,
            area@.len() == INLINE_AREA_SIZE,
            i <= n,
            forall|j: int| 0 <= j < i ==> area@[j] == target@[j],
            forall|j: int| i <= j < INLINE_AREA_SIZE ==> area@[j] == old(area)@[j],
        decreases n - i,
    {
        area[i] = target[i];
        i += 1;
    }
    assert(area@ =~= spec_write_inline(old(area)@, target@));
}

/// The error for a target that was not written whole to the data blocks.
pub open spec fn spec_short_symlink_write_error() -> Ext4Error {
    Ext4Error { code: Errno::EIO.number(), message: Some("Failed to write symlink target") }
}

/// Checks that writing a target of `target_len` bytes to the data blocks
/// wrote all of them.
pub fn check_symlink_written(written: usize, target_len: usize) -> (r: Ext4Result<()>)
    ensures
        r is Ok <==> written == target_len,
        r is Err ==> r == Err::<(), Ext4Error>(spec_short_symlink_write_error()),
{
    if written != target_len {
        return Err(Ext4Error::new(Errno::EIO.code(), Some("Failed to write symlink target")));
    }
    Ok(())
}

/// Where `readlink` finds a symbolic link's target.
#[derive(Clone, Copy, Debug, PartialEq, Eq, Structural)]
pub enum ReadlinkSource {
    /// The target is empty.
    Empty,
    /// The target is the first so many bytes of the inline area.
    Inline(usize),
    /// The target is the first so many bytes of the first data block.
    DataBlock(usize),
}

/// Whether an inode mode is that of a symbolic link.
pub open spec fn is_symlink_mode(mode: u16) -> bool {
    mode & EXT4_INODE_MODE_TYPE_MASK == EXT4_INODE_MODE_SOFTLINK
}

/// Where the target of an inode with mode `mode` and size `size` is found,
/// or the error for an inode that is no symbolic link.
pub open spec fn spec_readlink_source(mode: u16, size: u64) -> Result<ReadlinkSource, CoreError> {
    if !is_symlink_mode(mode) {
        Err(CoreError { kind: ErrorKind::InvalidInput, message: "Not a symlink" })
    } else if size as usize == 0 {
        Ok(ReadlinkSource::Empty)
    } else if (size as usize) < INLINE_AREA_SIZE {
        Ok(ReadlinkSource::Inline(size as usize))
    } else {
        Ok(ReadlinkSource::DataBlock(size as usize))
    }
}

/// Where the target of an inode with mode `mode` and size `size` is found.
pub fn readlink_source(mode: u16, size: u64) -> (r: Result<ReadlinkSource, CoreError>)
    ensures
        r == spec_readlink_source(mode, size),
{
    if mode & EXT4_INODE_MODE_TYPE_MASK != EXT4_INODE_MODE_SOFTLINK {
        return Err(CoreError::new(ErrorKind::InvalidInput, "Not a symlink"));
    }
    let size: usize = size as usize;
    if size == 0 {
        Ok(ReadlinkSource::Empty)
    } else if size < INLINE_AREA_SIZE {
        Ok(ReadlinkSource::Inline(size))
    } else {
        Ok(ReadlinkSource::DataBlock(size))
    }
}

/// Checks the block address that a long target is read from: address 0
/// means the link has no data block.
pub fn check_symlink_block(block_addr: u64) -> (r: Result<(), CoreError>)
    ensures
        r is Ok <==> block_addr != 0,
        r is Err ==> r == Err::<(), CoreError>(
            CoreError { kind: ErrorKind::NotFound, message: "Symlink data block not found" },
        ),
{
    if block_addr == 0 {
        return Err(CoreError::new(ErrorKind::NotFound, "Symlink data block not found"));
    }
    Ok(())
}

/// The target of `size` bytes held at the start of `bytes`, the inline area
/// or the link's first data block.
pub fn symlink_target(bytes: &[u8], size: usize) -> (r: Vec<u8>)
    requires
        size <= bytes@.len(),
    ensures
        r@ == bytes@.subrange(0, size as int),
{
    slice_to_vec(vstd::slice::slice_subrange(bytes, 0, size))
}

/// A fast symlink gives back the target it was written with: writing a short
/// target to the inline area of a symbolic link's inode and setting the size
/// to its length, `readlink` finds it inline (or empty) and reads it whole.
pub proof fn lemma_fast_symlink_round_trip(mode: u16, area: Seq<u8>, target: Seq<u8>)
    requires
        is_symlink_mode(mode),
        area.len() == INLINE_AREA_SIZE,
        target.len() < INLINE_AREA_SIZE,
    ensures
        spec_symlink_storage(target.len() as usize) == SymlinkStorage::Inline,
        target.len() == 0 ==> spec_readlink_source(mode, target.len() as u64) == Ok::<
            ReadlinkSource,
            CoreError,
        >(ReadlinkSource::Empty),
        target.len() > 0 ==> spec_readlink_source(mode, target.len() as u64) == Ok::<
            ReadlinkSource,
            CoreError,
        >(ReadlinkSource::Inline(target.len() as usize)),
        spec_write_inline(area, target).subrange(0, target.len() as int) == target,
{
    assert(spec_write_inline(area, target).subrange(0, target.len() as int) =~= target);
}

/// A target is stored inline exactly when it is shorter than 60 bytes; the
/// bytes of the inline area past the target keep their value.
pub proof fn lemma_inline_storage_rule(target_len: usize, area: Seq<u8>, target: Seq<u8>)
    requires
        area.len() == 60,
        target.len() < 60,
    ensures
        (spec_symlink_storage(target_len) == SymlinkStorage::Inline) <==> target_len < 60,
        spec_write_inline(area, target).len() == 60,
        forall|i: int| target.len() <= i < 60 ==> spec_write_inline(area, target)[i] == area[i],
        forall|i: int| 0 <= i < target.len() ==> spec_write_inline(area, target)[i] == target[i],
{
}

/// `readlink` refuses an inode whose type bits (mask 0xF000) are not those
/// of a symbolic link (0xA000) with EINVAL's kind; otherwise it reads as many
/// bytes as the inode's size: none for size 0, inline for sizes under 60,
/// from the data block for larger ones.
pub proof fn lemma_readlink_source_rule(mode: u16, size: u64)
    ensures
        spec_readlink_source(mode, size) is Err <==> mode & 0xF000 != 0xA000,
        spec_readlink_source(mode, size) is Err ==> spec_readlink_source(mode, size)->Err_0.kind
            == ErrorKind::InvalidInput,
        mode & 0xF000 == 0xA000 && size as usize == 0 ==> spec_readlink_source(mode, size) == Ok::<
            ReadlinkSource,
            CoreError,
        >(ReadlinkSource::Empty),
        spec_readlink_source(mode, size) matches Ok(ReadlinkSource::Inline(n)) ==> n == size as usize
            && 0 < n < 60,
        spec_readlink_source(mode, size) matches Ok(ReadlinkSource::DataBlock(n)) ==> n == size
            as usize && n >= 60,
        mode & 0xF000 == 0xA000 && 0 < size as usize && (size as usize) < 60 ==> spec_readlink_source(
            mode,
            size,
        ) == Ok::<ReadlinkSource, CoreError>(ReadlinkSource::Inline(size as usize)),
        mode & 0xF000 == 0xA000 && size as usize >= 60 ==> spec_readlink_source(mode, size) == Ok::<
            ReadlinkSource,
            CoreError,
        >(ReadlinkSource::DataBlock(size as usize)),
{
}

} // verus!
